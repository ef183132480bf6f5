//! What holds of the orchestrator and its frames whatever the platform
//! answers, proved over the views that the contracts speak of.

use vstd::prelude::*;
use crate::rendering::command_buffer::Command;
use crate::rendering::composing_subsystem::ComposingSystemInput;
use crate::rendering::frame_subsystem::frame::{FrameState, FrameView};
use crate::rendering::frame_subsystem::FrameSubsystemView;
use crate::rendering::framebuffer::{
    AttachmentSlot, Framebuffer, LoadOp, RenderPass, StoreOp, Subpass, Viewport, COMPOSE_SUBPASS,
    DRAW_SUBPASS,
};
use crate::rendering::swapchain::{Dimensions, FlushOutcome, SwapchainImage};
use crate::rendering::sync::Submitted;

verus! {

/// The orchestrator after `notices` notices that the surface changed.
pub open spec fn spec_invalidated_times(system: FrameSubsystemView, notices: nat) -> FrameSubsystemView
    decreases notices,
{
    if notices == 0 {
        system
    } else {
        spec_invalidated_times(system, (notices - 1) as nat).invalidated()
    }
}

/// A well-formed orchestrator has one framebuffer for each swapchain image,
/// each binding its image to the current attachments; the attachments, the
/// viewport and the input of the composition stage are those of the
/// current swapchain.
pub proof fn theorem_one_generation(system: FrameSubsystemView)
    requires
        system.wf(),
    ensures
        system.framebuffers.len() == system.swapchain.num_images,
        forall|i: int|
            0 <= i < system.framebuffers.len() ==> #[trigger] system.framebuffers[i]
                == (Framebuffer {
                final_color: SwapchainImage {
                    generation: system.swapchain.generation,
                    index: i as usize,
                },
                diffuse: system.attachments.diffuse,
                depth: system.attachments.depth,
            }),
        system.attachments.diffuse.dimensions == system.swapchain.dimensions,
        system.attachments.depth.dimensions == system.swapchain.dimensions,
        system.attachments.diffuse.generation == system.swapchain.generation,
        system.attachments.depth.generation == system.swapchain.generation,
        system.dynamic_state.viewport == Some(Viewport { dimensions: system.swapchain.dimensions }),
        system.composing_system.descriptor_set
            == ComposingSystemInput::spec_from(system.attachments).spec_create_descriptor_set(),
        system.composing_system.descriptor_set.diffuse == system.attachments.diffuse,
        system.composing_system.descriptor_set.depth == system.attachments.depth,
{
}

/// The render pass of a well-formed orchestrator has two subpasses in this
/// order. The draw subpass, which is the one that collaborators record
/// for, writes colour to the diffuse attachment and depth to the depth
/// attachment and reads no input. The composition subpass, which is the one
/// that the composition stage draws in, reads both of these as input
/// attachments and writes the presentable image. Every attachment is
/// cleared at the beginning, and only the presentable image is stored.
pub proof fn theorem_composition_reads_what_was_drawn(system: FrameSubsystemView)
    requires
        system.wf(),
    ensures
        system.render_pass == RenderPass::spec_deferred(),
        system.render_pass.spec_num_subpasses() == 2,
        system.render_pass.spec_subpass(DRAW_SUBPASS) == Some(system.render_pass.draw),
        system.render_pass.spec_subpass(COMPOSE_SUBPASS) == Some(system.render_pass.compose),
        forall|index: u32|
            index >= 2 ==> #[trigger] system.render_pass.spec_subpass(index) is None
                && Subpass::spec_from(system.render_pass, index) is None,
        system.render_pass.draw.color == AttachmentSlot::Diffuse,
        system.render_pass.draw.depth_stencil == Some(AttachmentSlot::Depth),
        system.render_pass.draw.color_input is None,
        system.render_pass.draw.depth_input is None,
        system.render_pass.compose.color == AttachmentSlot::FinalColor,
        system.render_pass.compose.depth_stencil is None,
        system.render_pass.compose.color_input == Some(system.render_pass.draw.color),
        system.render_pass.compose.depth_input == system.render_pass.draw.depth_stencil,
        system.render_pass.final_color.load == LoadOp::Clear,
        system.render_pass.diffuse.load == LoadOp::Clear,
        system.render_pass.depth.load == LoadOp::Clear,
        system.render_pass.final_color.store == StoreOp::Store,
        system.render_pass.diffuse.store == StoreOp::DontCare,
        system.render_pass.depth.store == StoreOp::DontCare,
        system.composing_system.subpass == (Subpass {
            render_pass: system.render_pass,
            index: COMPOSE_SUBPASS,
        }),
        system.composing_system.subpass.spec_description() == Some(system.render_pass.compose),
{
}

/// Every step that the orchestrator takes leaves it well-formed.
pub proof fn theorem_steps_keep_one_generation(
    system: FrameSubsystemView,
    num_images: usize,
    dimensions: Dimensions,
    suboptimal: bool,
    outcome: FlushOutcome,
    submitted: Submitted,
)
    requires
        system.wf(),
    ensures
        system.invalidated().wf(),
        system.recreated(num_images, dimensions).wf(),
        system.acquired(suboptimal).wf(),
        system.flushed(outcome, submitted).wf(),
{
}

/// Notices of a changed surface do nothing but mark the swapchain, however
/// many there are, and one is enough to mark it.
pub proof fn theorem_notices_only_mark(system: FrameSubsystemView, notices: nat)
    ensures
        spec_invalidated_times(system, notices) == (FrameSubsystemView {
            should_recreate_swapchain: system.should_recreate_swapchain || notices > 0,
            ..system
        }),
    decreases notices,
{
    if notices > 0 {
        theorem_notices_only_mark(system, (notices - 1) as nat);
    }
}

/// After any run of notices that the surface changed, the frame that is
/// acquired next finds as many framebuffers as the swapchain has images and
/// attachments of exactly the swapchain's extent. Where the swapchain was
/// marked, by one of the notices or before them, that is the swapchain that
/// the platform built of `num_images` images at the surface's extent
/// `dimensions`; where it was not, it is the swapchain that stood.
pub proof fn theorem_resize_then_acquire(
    system: FrameSubsystemView,
    notices: nat,
    num_images: usize,
    dimensions: Dimensions,
    suboptimal: bool,
)
    requires
        system.wf(),
    ensures
        ({
            let noticed = spec_invalidated_times(system, notices);
            let acquired = if noticed.recreates_first() {
                noticed.recreated(num_images, dimensions).acquired(suboptimal)
            } else {
                noticed.acquired(suboptimal)
            };
            &&& noticed.should_recreate_swapchain == (system.should_recreate_swapchain || notices
                > 0)
            &&& acquired.wf()
            &&& acquired.framebuffers.len() == acquired.swapchain.num_images
            &&& acquired.attachments.diffuse.dimensions == acquired.swapchain.dimensions
            &&& acquired.attachments.depth.dimensions == acquired.swapchain.dimensions
            &&& noticed.should_recreate_swapchain ==> {
                &&& acquired.swapchain.num_images == num_images
                &&& acquired.swapchain.dimensions == dimensions
                &&& acquired.should_recreate_swapchain == suboptimal
            }
            &&& !noticed.should_recreate_swapchain ==> acquired.swapchain == system.swapchain
        }),
{
    theorem_notices_only_mark(system, notices);
}

/// Three steps exhaust the pass sequence, and the state they reach is kept.
pub proof fn theorem_end_is_kept(steps: nat)
    requires
        steps >= 3,
    ensures
        FrameState::Draw.spec_advance(steps) is End,
    decreases steps,
{
    reveal_with_fuel(FrameState::spec_advance, 4);
    if steps > 3 {
        theorem_end_is_kept((steps - 1) as nat);
        lemma_advance_then_increment(FrameState::Draw, (steps - 1) as nat);
    }
}

/// Stepping after `steps` steps is stepping `steps + 1` times.
pub proof fn lemma_advance_then_increment(state: FrameState, steps: nat)
    ensures
        state.spec_advance(steps + 1) == state.spec_advance(steps).spec_increment(),
    decreases steps,
{
    reveal_with_fuel(FrameState::spec_advance, 2);
    if steps > 0 {
        lemma_advance_then_increment(state.spec_increment(), (steps - 1) as nat);
    }
}

/// Of the calls made on a frame, the first takes the draw step, the second
/// the compose step, and none after them hands out a pass: so the passes
/// are the draw pass, then the composition pass, and nothing else, however
/// often the frame is asked.
pub proof fn theorem_pass_order(calls_before: nat)
    ensures
        FrameState::Draw.spec_advance(calls_before) is Draw <==> calls_before == 0,
        FrameState::Draw.spec_advance(calls_before) is Compose <==> calls_before == 1,
        FrameState::Draw.spec_advance(calls_before).spec_hands_out_pass() <==> calls_before < 2,
{
    reveal_with_fuel(FrameState::spec_advance, 4);
    if calls_before >= 3 {
        theorem_end_is_kept(calls_before);
    }
}

/// The recording of a frame whose passes are exhausted is one render pass
/// on the framebuffer of the frame's image: begun, then what was recorded
/// into the draw pass, then the move to the composition subpass, then what
/// was recorded into that, then the end.
pub proof fn theorem_recording_is_one_render_pass(frame: FrameView)
    requires
        frame.state is End,
    ensures
        frame.commands().len() == frame.drawn.len() + frame.composed.len() + 3,
        frame.commands()[0] == (Command::BeginRenderPass { framebuffer: frame.framebuffer() }),
        forall|i: int|
            0 <= i < frame.drawn.len() ==> #[trigger] frame.commands()[1 + i]
                == (Command::ExecuteCommands { commands: frame.drawn[i] }),
        frame.commands()[1 + frame.drawn.len() as int] == Command::NextSubpass,
        forall|i: int|
            0 <= i < frame.composed.len() ==> #[trigger] frame.commands()[2 + frame.drawn.len() as int + i]
                == (Command::ExecuteCommands { commands: frame.composed[i] }),
        frame.commands().last() == Command::EndRenderPass,
{
}

/// A submission that the platform answers with an out-of-date swapchain
/// marks the swapchain, so that the next acquisition starts by recreating
/// it, and leaves a handle that waits for nothing; nothing else changes.
pub proof fn theorem_out_of_date_at_submission(frame: FrameView)
    requires
        frame.wf(),
        frame.state is End,
    ensures
        frame.flushed(FlushOutcome::OutOfDate).should_recreate_swapchain,
        frame.flushed(FlushOutcome::OutOfDate).recreates_first(),
        frame.flushed(FlushOutcome::OutOfDate).frame_future == Seq::<Submitted>::empty(),
        frame.flushed(FlushOutcome::OutOfDate).wf(),
        frame.flushed(FlushOutcome::OutOfDate) == (FrameSubsystemView {
            should_recreate_swapchain: true,
            frame_future: Seq::empty(),
            ..frame.system
        }),
{
}

/// Whatever the platform answers to a submission, a handle is retained
/// after it: only a successful flush leaves work to wait for.
pub proof fn theorem_handle_replaced_by_every_submission(frame: FrameView, outcome: FlushOutcome)
    requires
        frame.state is End,
    ensures
        outcome is Flushed ==> frame.flushed(outcome).frame_future
            == frame.system.frame_future.push(frame.submitted()),
        !(outcome is Flushed) ==> frame.flushed(outcome).frame_future == Seq::<Submitted>::empty(),
        frame.flushed(outcome).should_recreate_swapchain == (frame.system.should_recreate_swapchain
            || outcome is OutOfDate),
{
}

/// Of two frames in a row that were both flushed, the second waits for the
/// handle that the first left: all that the first waited for, and then the
/// first's own submission. That holds whether the second was acquired on
/// the swapchain of the first or on one recreated in between. So nothing is
/// presented before what was submitted before it.
pub proof fn theorem_frames_are_chained(
    first: FrameView,
    recreated: Option<(usize, Dimensions)>,
    image_index: usize,
    suboptimal: bool,
)
    requires
        first.state is End,
    ensures
        ({
            let left = first.flushed(FlushOutcome::Flushed);
            let standing = match recreated {
                Some((num_images, dimensions)) => left.recreated(num_images, dimensions),
                None => left,
            };
            let second = FrameView::acquired(standing.acquired(suboptimal), image_index);
            &&& second.system.frame_future == left.frame_future
            &&& second.system.frame_future == first.system.frame_future.push(first.submitted())
            &&& first.system.frame_future.is_prefix_of(second.system.frame_future)
            &&& second.system.frame_future.last() == first.submitted()
        }),
{
}

} // verus!
