//! The decisions of the worker that keeps a world moving: what one
//! iteration does, and how a request for a new world waits for it.

use vstd::prelude::*;
use crate::world::{RawStar, draw_stars, raw_stars};

verus! {

/// What can be asked of the worker.
#[derive(Clone, Copy, Debug, PartialEq, Eq, Structural)]
pub enum ThreadCommand {
    /// Throw the world away and build a new one.
    Reset,
}

/// What the worker does in one iteration.
#[derive(Clone, Copy, Debug, PartialEq, Eq, Structural)]
pub enum WorkerStep {
    /// Build a world from a fresh seed, update it once and publish it.
    Rebuild,
    /// Copy the published world, update the copy once and publish it.
    Advance,
}

/// The step that answers what the worker found waiting.
pub open spec fn step_for(polled: Option<ThreadCommand>) -> WorkerStep {
    match polled {
        Some(ThreadCommand::Reset) => WorkerStep::Rebuild,
        None => WorkerStep::Advance,
    }
}

/// Decides one iteration of the worker from what it polled: a waiting
/// reset makes it rebuild, nothing waiting makes it advance.
pub fn plan_iteration(polled: Option<ThreadCommand>) -> (step: WorkerStep)
    ensures
        step == step_for(polled),
{
    match polled {
        Some(ThreadCommand::Reset) => WorkerStep::Rebuild,
        None => WorkerStep::Advance,
    }
}

/// The one place where a command waits for the worker. It holds the latest
/// request only.
pub struct CommandSlot {
    pending: Option<ThreadCommand>,
}

impl View for CommandSlot {
    type V = Option<ThreadCommand>;

    closed spec fn view(&self) -> Option<ThreadCommand> {
        self.pending
    }
}

impl CommandSlot {
    /// An empty slot.
    pub fn new() -> (slot: Self)
        ensures
            slot@ is None,
    {
        CommandSlot { pending: None }
    }

    /// Leaves `command` for the worker, in place of whatever waited.
    pub fn request(&mut self, command: ThreadCommand)
        ensures
            final(self)@ == requested(old(self)@, command),
    {
        self.pending = Some(command);
    }

    /// Takes what waits, if anything does, and leaves the slot empty.
    pub fn poll(&mut self) -> (polled: Option<ThreadCommand>)
        ensures
            polled == old(self)@,
            final(self)@ is None,
    {
        let polled = self.pending;
        self.pending = None;
        polled
    }
}

/// What a slot holds once `command` has been requested.
pub open spec fn requested(slot: Option<ThreadCommand>, command: ThreadCommand) -> Option<
    ThreadCommand,
> {
    Some(command)
}

/// What a slot holds after `requests` requests of `command`, where it held
/// `before`.
pub open spec fn requested_times(before: Option<ThreadCommand>, command: ThreadCommand, requests: nat)
    -> Option<ThreadCommand>
    decreases requests,
{
    if requests == 0 {
        before
    } else {
        requested(requested_times(before, command, (requests - 1) as nat), command)
    }
}

/// Asking twice is asking once: whatever waited before, after any number of
/// requests for a reset the slot holds one reset. The next poll then makes
/// the worker rebuild, and the poll after it, which finds the slot empty,
/// makes it advance.
pub proof fn lemma_reset_served_once(before: Option<ThreadCommand>, requests: nat)
    requires
        requests >= 1,
    ensures
        requested_times(before, ThreadCommand::Reset, requests) == requested(
            before,
            ThreadCommand::Reset,
        ),
        step_for(requested_times(before, ThreadCommand::Reset, requests)) == WorkerStep::Rebuild,
        step_for(None) == WorkerStep::Advance,
{
}

/// Four words from `rand::random`, which draws them from the generator of
/// the calling thread. Nothing is claimed of them: any four words may come.
#[verifier::external_body]
fn random_seed() -> (seed: (u32, u32, u32, u32)) {
    rand::random::<(u32, u32, u32, u32)>()
}

/// Draws the raw coordinates of a new world from a seed picked at random,
/// and hands back the seed with them: the stars are those that the seed
/// decides, whichever seed came.
pub fn draw_fresh_stars(star_count: usize) -> (fresh: ((u32, u32, u32, u32), Vec<RawStar>))
    ensures
        fresh.1@ == raw_stars(fresh.0, star_count as nat),
        fresh.1.len() == star_count,
{
    let seed = random_seed();
    let stars = draw_stars(star_count, Some(seed));
    (seed, stars)
}

} // verus!
