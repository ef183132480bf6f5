//! The composition stage: a fixed pipeline that reads the off-screen
//! attachments and writes the presentable image.

use vstd::prelude::*;
use crate::rendering::command_buffer::{DescriptorSet, SecondaryCommands};
use crate::rendering::framebuffer::{AttachmentImage, Attachments, DynamicState, Subpass};

verus! {

/// The attachments that the composition stage reads.
#[derive(Clone, Copy, Debug, PartialEq, Eq, Structural)]
pub struct ComposingSystemInput {
    pub diffuse: AttachmentImage,
    pub depth: AttachmentImage,
}

impl ComposingSystemInput {
    /// The input made of the two images of `attachments`.
    pub open spec fn spec_from(attachments: Attachments) -> ComposingSystemInput {
        ComposingSystemInput { diffuse: attachments.diffuse, depth: attachments.depth }
    }

    /// The set that binds both images of the input.
    pub open spec fn spec_create_descriptor_set(self) -> DescriptorSet {
        DescriptorSet { diffuse: self.diffuse, depth: self.depth }
    }

    pub fn create_descriptor_set(self) -> (descriptor_set: DescriptorSet)
        ensures
            descriptor_set == self.spec_create_descriptor_set(),
    {
        DescriptorSet { diffuse: self.diffuse, depth: self.depth }
    }
}

impl From<Attachments> for ComposingSystemInput {
    fn from(attachments: Attachments) -> (input: ComposingSystemInput) {
        ComposingSystemInput { diffuse: attachments.diffuse, depth: attachments.depth }
    }
}

impl vstd::std_specs::convert::FromSpecImpl<Attachments> for ComposingSystemInput {
    open spec fn obeys_from_spec() -> bool {
        true
    }

    open spec fn from_spec(attachments: Attachments) -> ComposingSystemInput {
        ComposingSystemInput::spec_from(attachments)
    }
}

/// The composition stage, bound to the subpass it draws in and to the
/// attachments it reads.
#[derive(Clone, Copy, Debug, PartialEq, Eq, Structural)]
pub struct ComposingSubsystem {
    pub subpass: Subpass,
    pub descriptor_set: DescriptorSet,
}

impl ComposingSubsystem {
    /// The stage that draws in `subpass` and reads `input`.
    pub open spec fn spec_new(subpass: Subpass, input: ComposingSystemInput) -> ComposingSubsystem {
        ComposingSubsystem { subpass, descriptor_set: input.spec_create_descriptor_set() }
    }

    /// This stage with `input` bound in place of what it read before.
    pub open spec fn spec_update_input(self, input: ComposingSystemInput) -> ComposingSubsystem {
        ComposingSubsystem { subpass: self.subpass, descriptor_set: input.spec_create_descriptor_set() }
    }

    /// The quad's commands: for this stage's subpass, over what is bound now.
    pub open spec fn spec_draw(self, dynamic_state: DynamicState) -> SecondaryCommands {
        SecondaryCommands::Composition {
            subpass: self.subpass,
            descriptor_set: self.descriptor_set,
            dynamic_state,
        }
    }

    pub fn new(subpass: Subpass, input: ComposingSystemInput) -> (system: ComposingSubsystem)
        ensures
            system == Self::spec_new(subpass, input),
    {
        let descriptor_set = input.create_descriptor_set();
        ComposingSubsystem { subpass, descriptor_set }
    }

    /// Binds both images of `input`, colour and depth, in place of what was
    /// read before; the subpass stays. To be called in the same step that
    /// replaces the attachments, so that no later draw reads the old ones.
    pub fn update_input(&mut self, input: ComposingSystemInput)
        ensures
            *final(self) == old(self).spec_update_input(input),
            final(self).descriptor_set.diffuse == input.diffuse,
            final(self).descriptor_set.depth == input.depth,
            final(self).subpass == old(self).subpass,
    {
        self.descriptor_set = input.create_descriptor_set();
    }

    /// Records the full-screen quad. Reads what is bound and changes nothing.
    pub fn draw(&self, dynamic_state: &DynamicState) -> (commands: SecondaryCommands)
        ensures
            commands == self.spec_draw(*dynamic_state),
    {
        SecondaryCommands::Composition {
            subpass: self.subpass,
            descriptor_set: self.descriptor_set,
            dynamic_state: *dynamic_state,
        }
    }
}

} // verus!
