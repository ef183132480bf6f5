//! One frame: its pass sequence, its recording and its submission.
//!
//! A frame borrows the orchestrator exclusively from acquisition to
//! submission. [`Frame::next_pass`] hands out the passes in their fixed
//! order; a pass handle is the only way to record into the pass it stands
//! for. When the passes are exhausted the recording is final, the platform
//! submits it, and [`Frame::submit`] takes the platform's answer.

use vstd::prelude::*;
use crate::rendering::command_buffer::{CommandRecording, Command, SecondaryCommands};
use crate::rendering::frame_subsystem::{FrameSubsystem, FrameSubsystemView};
use crate::rendering::framebuffer::{DynamicState, Framebuffer};
use crate::rendering::swapchain::{FlushOutcome, SwapchainImage};
use crate::rendering::sync::{CompletionHandle, WaitDependency, Submitted};

verus! {

/// Where a frame stands in its pass sequence, named by what its next step
/// does. The order is fixed, nothing is visited twice, and `End` is kept.
#[derive(Clone, Copy, Debug, PartialEq, Eq, Structural)]
pub enum FrameState {
    Draw,
    Compose,
    Submit,
    End,
}

impl FrameState {
    /// The state that follows; `End` follows itself.
    pub open spec fn spec_increment(self) -> FrameState {
        match self {
            FrameState::Draw => FrameState::Compose,
            FrameState::Compose => FrameState::Submit,
            _ => FrameState::End,
        }
    }

    /// Whether the step taken in this state hands out a pass.
    pub open spec fn spec_hands_out_pass(self) -> bool {
        self is Draw || self is Compose
    }

    /// The state after `steps` steps.
    pub open spec fn spec_advance(self, steps: nat) -> FrameState
        decreases steps,
    {
        if steps == 0 {
            self
        } else {
            self.spec_increment().spec_advance((steps - 1) as nat)
        }
    }

    /// Moves on to the next state and returns the one that was left.
    pub fn increment(&mut self) -> (left: FrameState)
        ensures
            left == *old(self),
            *final(self) == old(self).spec_increment(),
    {
        let left = *self;
        *self = match left {
            FrameState::Draw => FrameState::Compose,
            FrameState::Compose => FrameState::Submit,
            _ => FrameState::End,
        };
        left
    }
}

/// Each of `commands` as a command of the primary recording, in order.
pub open spec fn spec_executions(commands: Seq<SecondaryCommands>) -> Seq<Command> {
    Seq::new(commands.len(), |i: int| (Command::ExecuteCommands { commands: commands[i] }))
}

/// A frame, as mathematics.
pub struct FrameView {
    pub system: FrameSubsystemView,
    pub swapchain_image_index: usize,
    pub state: FrameState,
    /// What was recorded into the draw subpass so far.
    pub drawn: Seq<SecondaryCommands>,
    /// What was recorded into the composition subpass so far.
    pub composed: Seq<SecondaryCommands>,
}

impl FrameView {
    /// The frame as acquired: nothing recorded, the draw pass next.
    pub open spec fn acquired(system: FrameSubsystemView, swapchain_image_index: usize) -> FrameView {
        FrameView {
            system,
            swapchain_image_index,
            state: FrameState::Draw,
            drawn: Seq::empty(),
            composed: Seq::empty(),
        }
    }

    /// The image is one of the swapchain's, and no subpass holds commands
    /// before it was entered.
    pub open spec fn wf(self) -> bool {
        &&& self.system.wf()
        &&& self.swapchain_image_index < self.system.swapchain.num_images
        &&& self.state is Draw ==> self.drawn == Seq::<SecondaryCommands>::empty()
        &&& (self.state is Draw || self.state is Compose) ==> self.composed == Seq::<
            SecondaryCommands,
        >::empty()
    }

    /// The image that the frame draws to and presents.
    pub open spec fn image(self) -> SwapchainImage {
        SwapchainImage {
            generation: self.system.swapchain.generation,
            index: self.swapchain_image_index,
        }
    }

    /// The framebuffer of the frame's image.
    pub open spec fn framebuffer(self) -> Framebuffer {
        self.system.framebuffers[self.swapchain_image_index as int]
    }

    /// The primary recording as it stands: the render pass is begun by the
    /// draw step, moved to its second subpass by the compose step and ended
    /// by the submit step, and each subpass runs what was recorded into it.
    pub open spec fn commands(self) -> Seq<Command> {
        let begun = seq![Command::BeginRenderPass { framebuffer: self.framebuffer() }]
            + spec_executions(self.drawn);
        let composing = begun + seq![Command::NextSubpass] + spec_executions(self.composed);
        match self.state {
            FrameState::Draw => Seq::empty(),
            FrameState::Compose => begun,
            FrameState::Submit => composing,
            FrameState::End => composing + seq![Command::EndRenderPass],
        }
    }

    /// The frame after one step of its pass sequence.
    pub open spec fn stepped(self) -> FrameView {
        FrameView { state: self.state.spec_increment(), ..self }
    }

    /// The frame after `commands` went into the subpass that is open: the
    /// draw subpass until the compose step was taken, the composition
    /// subpass after it.
    pub open spec fn executed(self, commands: SecondaryCommands) -> FrameView {
        match self.state {
            FrameState::Compose => FrameView { drawn: self.drawn.push(commands), ..self },
            FrameState::Submit => FrameView { composed: self.composed.push(commands), ..self },
            _ => self,
        }
    }

    /// The frame after the composition stage recorded its quad.
    pub open spec fn composed_once(self) -> FrameView {
        self.executed(self.system.composing_system.spec_draw(self.system.dynamic_state))
    }

    /// What the platform hands to the queue once the passes are exhausted.
    pub open spec fn submitted(self) -> Submitted {
        Submitted { commands: self.commands(), presented: self.image() }
    }

    /// The orchestrator after the frame ended with answer `outcome`. A
    /// frame whose passes were not exhausted submitted nothing and leaves
    /// the orchestrator as it is.
    pub open spec fn flushed(self, outcome: FlushOutcome) -> FrameSubsystemView {
        if self.state is End {
            self.system.flushed(outcome, self.submitted())
        } else {
            self.system
        }
    }
}

/// One frame of the orchestrator that it borrows.
pub struct Frame<'s> {
    system: &'s mut FrameSubsystem,
    swapchain_image_index: usize,
    state: FrameState,
    recording: CommandRecording,
    drawn: Ghost<Seq<SecondaryCommands>>,
    composed: Ghost<Seq<SecondaryCommands>>,
}

impl<'s> View for Frame<'s> {
    type V = FrameView;

    closed spec fn view(&self) -> FrameView {
        FrameView {
            system: (*self.system)@,
            swapchain_image_index: self.swapchain_image_index,
            state: self.state,
            drawn: self.drawn@,
            composed: self.composed@,
        }
    }
}

/// A pass of a frame, as handed out by [`Frame::next_pass`].
pub enum Pass<'f, 's: 'f> {
    Draw(DrawPass<'f, 's>),
    Compose(ComposingPass<'f, 's>),
}

/// The draw subpass of a frame, open for the collaborators' commands.
pub struct DrawPass<'f, 's: 'f> {
    frame: &'f mut Frame<'s>,
}

/// The composition subpass of a frame.
pub struct ComposingPass<'f, 's: 'f> {
    frame: &'f mut Frame<'s>,
}

impl<'s> Frame<'s> {
    /// The orchestrator that the frame borrows.
    pub closed spec fn borrowed(&self) -> &mut FrameSubsystem {
        self.system
    }

    /// The frame's view is well-formed and its recording holds the commands
    /// that the view gives.
    pub closed spec fn wf(&self) -> bool {
        &&& self@.wf()
        &&& self.recording@ == self@.commands()
    }

    /// What a well-formed frame is, as far as its view shows: the
    /// orchestrator in the view is the one that the frame borrows, it is
    /// well-formed, the frame's image is one of the swapchain's, and no
    /// subpass holds commands before it was entered.
    pub proof fn well_formed(self)
        ensures
            self@.system == self.borrowed()@,
            self.wf() ==> {
                &&& self@.wf()
                &&& self.borrowed()@.wf()
                &&& self@.swapchain_image_index < self.borrowed()@.swapchain.num_images
                &&& self@.state is Draw ==> self@.commands() == Seq::<Command>::empty()
            },
    {
    }

    /// A frame that is dropped leaves the orchestrator as the frame held it.
    pub proof fn released(self)
        requires
            has_resolved(self),
        ensures
            *final(self.borrowed()) == *self.borrowed(),
    {
    }

    pub(super) fn new(system: &'s mut FrameSubsystem, swapchain_image_index: usize) -> (frame: Frame<'s>)
        requires
            old(system)@.wf(),
            swapchain_image_index < old(system)@.swapchain.num_images,
        ensures
            frame.wf(),
            frame@ == FrameView::acquired(old(system)@, swapchain_image_index),
            *frame.borrowed() == *old(system),
            *final(frame.borrowed()) == *final(system),
    {
        Frame {
            system,
            swapchain_image_index,
            state: FrameState::Draw,
            recording: CommandRecording::new(),
            drawn: Ghost(Seq::empty()),
            composed: Ghost(Seq::empty()),
        }
    }

    /// Takes the next step of the pass sequence. The first call begins the
    /// render pass on the framebuffer of the frame's image and hands out the
    /// draw pass; the second moves to the composition subpass and hands that
    /// out; the third ends the render pass, which makes the recording final,
    /// and hands out nothing, as does every call after it.
    pub fn next_pass(&mut self) -> (pass: Option<Pass<'_, 's>>)
        requires
            old(self).wf(),
        ensures
            pass is Some <==> old(self)@.state.spec_hands_out_pass(),
            match old(self)@.state {
                FrameState::Draw => {
                    &&& pass matches Some(Pass::Draw(draw))
                    &&& draw.borrowed().wf()
                    &&& draw.borrowed()@ == old(self)@.stepped()
                    &&& *draw.borrowed().borrowed() == *old(self).borrowed()
                    &&& *final(draw.borrowed().borrowed()) == *final(old(self).borrowed())
                    &&& *final(draw.borrowed()) == *final(self)
                },
                FrameState::Compose => {
                    &&& pass matches Some(Pass::Compose(compose))
                    &&& compose.borrowed().wf()
                    &&& compose.borrowed()@ == old(self)@.stepped()
                    &&& *compose.borrowed().borrowed() == *old(self).borrowed()
                    &&& *final(compose.borrowed().borrowed()) == *final(old(self).borrowed())
                    &&& *final(compose.borrowed()) == *final(self)
                },
                _ => {
                    &&& pass is None
                    &&& final(self).wf()
                    &&& final(self)@ == old(self)@.stepped()
                    &&& *final(self).borrowed() == *old(self).borrowed()
                    &&& *final(final(self).borrowed()) == *final(old(self).borrowed())
                },
            },
    {
        match self.state.increment() {
            FrameState::Draw => {
                let framebuffer = self.system.framebuffers[self.swapchain_image_index];
                self.recording.begin_render_pass(framebuffer);
                proof {
                    assert(self.recording@ =~= self@.commands());
                }
                Some(Pass::Draw(DrawPass { frame: self }))
            },
            FrameState::Compose => {
                self.recording.next_subpass();
                proof {
                    assert(self.recording@ =~= self@.commands());
                }
                Some(Pass::Compose(ComposingPass { frame: self }))
            },
            FrameState::Submit => {
                self.recording.end_render_pass();
                proof {
                    assert(self.recording@ =~= self@.commands());
                }
                None
            },
            FrameState::End => None,
        }
    }

    /// Records `commands` into the subpass that is open, if one is.
    fn execute_secondary_buffer(&mut self, commands: SecondaryCommands)
        requires
            old(self).wf(),
        ensures
            final(self).wf(),
            final(self)@ == old(self)@.executed(commands),
            *final(self).borrowed() == *old(self).borrowed(),
            *final(final(self).borrowed()) == *final(old(self).borrowed()),
    {
        match self.state {
            FrameState::Compose => {
                self.recording.execute_commands(commands);
                proof {
                    self.drawn@ = self.drawn@.push(commands);
                    assert(self.recording@ =~= self@.commands());
                }
            },
            FrameState::Submit => {
                self.recording.execute_commands(commands);
                proof {
                    self.composed@ = self.composed@.push(commands);
                    assert(self.recording@ =~= self@.commands());
                }
            },
            _ => {},
        }
    }

    /// Ends the frame with the platform's answer to its submission. On
    /// success the fence of this submission is what the next frame waits
    /// for. On an out-of-date swapchain the swapchain is marked and the next
    /// frame waits for nothing; on any other failure the next frame waits
    /// for nothing. A frame whose passes were not exhausted submitted
    /// nothing: the orchestrator stays as it is.
    pub fn submit(self, outcome: FlushOutcome)
        requires
            self.wf(),
        ensures
            final(self.borrowed())@ == self@.flushed(outcome),
            final(self.borrowed())@.wf(),
    {
        let mut frame = self;
        match frame.state {
            FrameState::End => {
                match outcome {
                    FlushOutcome::Flushed => {
                        let submitted: Ghost<Submitted> = Ghost(frame@.submitted());
                        frame.system.frame_future = frame.system.frame_future.signalled_after(
                            submitted,
                        );
                    },
                    FlushOutcome::OutOfDate => {
                        frame.system.should_recreate_swapchain = true;
                        frame.system.frame_future = CompletionHandle::now();
                    },
                    FlushOutcome::Failed => {
                        frame.system.frame_future = CompletionHandle::now();
                    },
                }
            },
            _ => {},
        }
    }

    pub fn system(&self) -> (system: &FrameSubsystem)
        ensures
            *system == *self.borrowed(),
            system@ == self@.system,
    {
        &*self.system
    }

    pub fn state(&self) -> (state: FrameState)
        ensures
            state == self@.state,
    {
        self.state
    }

    pub fn swapchain_image_index(&self) -> (index: usize)
        ensures
            index == self@.swapchain_image_index,
    {
        self.swapchain_image_index
    }

    /// The primary recording as it stands; final once the passes are
    /// exhausted.
    pub fn commands(&self) -> (commands: &Vec<Command>)
        requires
            self.wf(),
        ensures
            commands@ == self@.commands(),
    {
        self.recording.commands()
    }

    /// What the frame's submission waits for: the handle that the
    /// orchestrator retained, joined with the acquisition of the frame's
    /// image.
    pub fn wait_dependency(&self) -> (wait: WaitDependency)
        ensures
            wait.previous@ == self@.system.frame_future,
            wait.acquired == self@.image(),
    {
        WaitDependency {
            previous: self.system.frame_future,
            acquired: SwapchainImage {
                generation: self.system.swapchain.generation,
                index: self.swapchain_image_index,
            },
        }
    }
}

impl<'f, 's: 'f> DrawPass<'f, 's> {
    /// The frame that the pass borrows.
    pub closed spec fn borrowed(&self) -> &mut Frame<'s> {
        self.frame
    }

    /// Once the pass is no longer used, the frame is as the pass left it.
    pub proof fn released(self)
        requires
            has_resolved(self),
        ensures
            *final(self.borrowed()) == *self.borrowed(),
    {
    }

    /// Records `commands` into the draw subpass, after what it holds.
    pub fn execute(&mut self, commands: SecondaryCommands)
        requires
            old(self).borrowed().wf(),
        ensures
            final(self).borrowed().wf(),
            final(self).borrowed()@ == old(self).borrowed()@.executed(commands),
            *final(self).borrowed().borrowed() == *old(self).borrowed().borrowed(),
            *final(final(self).borrowed().borrowed()) == *final(old(self).borrowed().borrowed()),
            *final(final(self).borrowed()) == *final(old(self).borrowed()),
    {
        self.frame.execute_secondary_buffer(commands);
    }

    /// The viewport that the collaborators' commands are to be drawn with.
    pub fn dynamic_state(&self) -> (dynamic_state: &DynamicState)
        ensures
            *dynamic_state == self.borrowed()@.system.dynamic_state,
    {
        &self.frame.system.dynamic_state
    }
}

impl<'f, 's: 'f> ComposingPass<'f, 's> {
    /// The frame that the pass borrows.
    pub closed spec fn borrowed(&self) -> &mut Frame<'s> {
        self.frame
    }

    /// Once the pass is no longer used, the frame is as the pass left it.
    pub proof fn released(self)
        requires
            has_resolved(self),
        ensures
            *final(self.borrowed()) == *self.borrowed(),
    {
    }

    /// Records the composition stage's quad, over the attachments that the
    /// stage reads now, into the composition subpass.
    pub fn compose(&mut self)
        requires
            old(self).borrowed().wf(),
        ensures
            final(self).borrowed().wf(),
            final(self).borrowed()@ == old(self).borrowed()@.composed_once(),
            *final(self).borrowed().borrowed() == *old(self).borrowed().borrowed(),
            *final(final(self).borrowed().borrowed()) == *final(old(self).borrowed().borrowed()),
            *final(final(self).borrowed()) == *final(old(self).borrowed()),
    {
        let commands = self.frame.system.composing_system.draw(&self.frame.system.dynamic_state);
        self.frame.execute_secondary_buffer(commands);
    }
}

} // verus!
