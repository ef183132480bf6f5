//! Completion handles: what stands for "the work submitted up to here is
//! done", and how one frame's handle becomes the next frame's wait point.

use vstd::prelude::*;
use crate::rendering::command_buffer::Command;
use crate::rendering::swapchain::SwapchainImage;

verus! {

/// One frame's work as it was handed to the queue: the commands that were
/// executed and the image that was presented after them.
pub struct Submitted {
    pub commands: Seq<Command>,
    pub presented: SwapchainImage,
}

/// How many submissions a handle counts: all of them, as far as a `u64` goes.
pub open spec fn spec_chained(submissions: Seq<Submitted>) -> u64 {
    if submissions.len() <= u64::MAX {
        submissions.len() as u64
    } else {
        u64::MAX
    }
}

/// A completion handle: it completes when every submission it was chained
/// from has. Its view is that chain, oldest first; a handle over no
/// submission completes at once.
#[derive(Clone, Copy)]
pub struct CompletionHandle {
    submissions: Ghost<Seq<Submitted>>,
    chained: u64,
}

impl View for CompletionHandle {
    type V = Seq<Submitted>;

    closed spec fn view(&self) -> Seq<Submitted> {
        self.submissions@
    }
}

impl CompletionHandle {
    #[verifier::type_invariant]
    spec fn counted(self) -> bool {
        self.chained == spec_chained(self.submissions@)
    }

    /// The handle that completes at once: nothing to wait for.
    pub fn now() -> (handle: CompletionHandle)
        ensures
            handle@ == Seq::<Submitted>::empty(),
    {
        CompletionHandle { submissions: Ghost(Seq::empty()), chained: 0 }
    }

    /// The handle of the fence that is signalled when `submitted`, which
    /// itself waited for `self`, has completed.
    pub(crate) fn signalled_after(self, submitted: Ghost<Submitted>) -> (handle: CompletionHandle)
        ensures
            handle@ == self@.push(submitted@),
    {
        proof {
            use_type_invariant(&self);
        }
        let chained: u64 = if self.chained == u64::MAX {
            u64::MAX
        } else {
            self.chained + 1
        };
        CompletionHandle { submissions: Ghost(self.submissions@.push(submitted@)), chained }
    }

    /// The number of submissions that the handle was chained from, which
    /// stops counting at the largest `u64`.
    pub fn chained(&self) -> (chained: u64)
        ensures
            chained == spec_chained(self@),
    {
        proof {
            use_type_invariant(self);
        }
        self.chained
    }

    /// Whether the handle completes at once.
    pub fn is_now(&self) -> (now: bool)
        ensures
            now <==> self@.len() == 0,
    {
        proof {
            use_type_invariant(self);
        }
        self.chained == 0
    }
}

/// What a frame's submission waits for: the handle retained from the frame
/// before it, joined with the acquisition of the frame's own image.
#[derive(Clone, Copy)]
pub struct WaitDependency {
    pub previous: CompletionHandle,
    pub acquired: SwapchainImage,
}

} // verus!
