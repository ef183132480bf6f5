//! What a frame records: the commands of its one render pass, in order.

use vstd::prelude::*;
use crate::rendering::framebuffer::{AttachmentImage, DynamicState, Framebuffer, Subpass};
use crate::rendering::world_rendering_subsystem::WorldDraw;

verus! {

/// The attachments that the composition pipeline reads, as bound to it:
/// colour first, then depth.
#[derive(Clone, Copy, Debug, PartialEq, Eq, Structural)]
pub struct DescriptorSet {
    pub diffuse: AttachmentImage,
    pub depth: AttachmentImage,
}

/// Commands recorded ahead of time for one subpass, to be run from a frame.
#[derive(Clone, Copy, Debug, PartialEq, Eq, Structural)]
pub enum SecondaryCommands {
    /// Recorded by a collaborator for `subpass`; the platform keeps the
    /// buffer itself and finds it again by `key`.
    Recorded { subpass: Subpass, key: u64 },
    /// A draw of the world renderer, recorded for `subpass`.
    World { subpass: Subpass, draw: WorldDraw },
    /// The full-screen quad of the composition stage, reading
    /// `descriptor_set` and drawn with `dynamic_state`.
    Composition { subpass: Subpass, descriptor_set: DescriptorSet, dynamic_state: DynamicState },
}

/// One command of a frame's primary recording.
#[derive(Clone, Copy, Debug, PartialEq, Eq, Structural)]
pub enum Command {
    /// Enters the first subpass on `framebuffer`, clearing all its targets.
    BeginRenderPass { framebuffer: Framebuffer },
    /// Runs commands recorded ahead of time in the current subpass.
    ExecuteCommands { commands: SecondaryCommands },
    /// Moves on to the next subpass.
    NextSubpass,
    /// Leaves the render pass.
    EndRenderPass,
}

/// The primary recording of a frame: what the platform is to record, in
/// this order, into the command buffer that it submits once.
#[derive(Debug)]
pub struct CommandRecording {
    commands: Vec<Command>,
}

impl View for CommandRecording {
    type V = Seq<Command>;

    closed spec fn view(&self) -> Seq<Command> {
        self.commands@
    }
}

impl CommandRecording {
    pub fn new() -> (recording: CommandRecording)
        ensures
            recording@ == Seq::<Command>::empty(),
    {
        CommandRecording { commands: Vec::new() }
    }

    pub fn begin_render_pass(&mut self, framebuffer: Framebuffer)
        ensures
            final(self)@ == old(self)@.push(Command::BeginRenderPass { framebuffer }),
    {
        self.commands.push(Command::BeginRenderPass { framebuffer });
    }

    pub fn execute_commands(&mut self, commands: SecondaryCommands)
        ensures
            final(self)@ == old(self)@.push(Command::ExecuteCommands { commands }),
    {
        self.commands.push(Command::ExecuteCommands { commands });
    }

    pub fn next_subpass(&mut self)
        ensures
            final(self)@ == old(self)@.push(Command::NextSubpass),
    {
        self.commands.push(Command::NextSubpass);
    }

    pub fn end_render_pass(&mut self)
        ensures
            final(self)@ == old(self)@.push(Command::EndRenderPass),
    {
        self.commands.push(Command::EndRenderPass);
    }

    /// The commands recorded so far, oldest first.
    pub fn commands(&self) -> (commands: &Vec<Command>)
        ensures
            commands@ == self@,
    {
        &self.commands
    }
}

} // verus!
