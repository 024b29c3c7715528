use vstd::prelude::*;

verus! {

/// The distinct failure modes of the device stepper. Each aborts a run with
/// no partial result, and none is retried.
#[derive(Clone, Copy, Debug, PartialEq, Eq, Structural)]
pub enum DeviceError {
    /// No compute device was found on any platform.
    NoDevice,
    /// The device program or kernel failed to build.
    ProgramBuild,
    /// A kernel launch or enqueue failed.
    KernelLaunch,
    /// Reading the final buffer back to the host failed.
    BufferReadback,
}

/// What the host must do next with the device queue.
#[derive(Clone, Copy, Debug, PartialEq, Eq, Structural)]
pub enum DeviceAction {
    /// Zero-initialize the round's write buffer, then launch one round that
    /// reads buffer A and writes buffer B (`true`), or the reverse (`false`).
    Launch(bool),
    /// All rounds are done: read the final generation back from buffer A
    /// (`true`) or from buffer B (`false`).
    ReadBack(bool),
}

/// The device stepper's round loop as a state machine: two device buffers
/// alternate the current/next roles each round (no copy), the initial
/// generation starts in buffer A, and after the last round the buffer that
/// took the last write is read back. The host performs each action and
/// reports each finished round; which buffer to touch is decided here.
pub struct DeviceRun {
    rounds_done: usize,
    iterations: usize,
}

impl DeviceRun {
    /// How many rounds the run was asked for.
    pub closed spec fn spec_iterations(&self) -> usize {
        self.iterations
    }

    /// How many rounds have completed on the device.
    pub closed spec fn spec_rounds_done(&self) -> usize {
        self.rounds_done
    }

    /// The current generation sits in buffer A exactly after an even number
    /// of rounds, since the roles alternate and it starts there.
    pub open spec fn current_in_a(&self) -> bool {
        self.spec_rounds_done() % 2 == 0
    }

    /// Starts a run: no round done yet, the initial generation in buffer A.
    pub fn new(iterations: usize) -> (s: Self)
        ensures
            s.spec_iterations() == iterations,
            s.spec_rounds_done() == 0,
            s.current_in_a(),
    {
        DeviceRun { rounds_done: 0, iterations }
    }

    /// Decides the next step: launch another round out of the buffer that
    /// holds the current generation, or, once all rounds are done, read that
    /// buffer back.
    pub fn next_action(&self) -> (a: DeviceAction)
        ensures
            a == if self.spec_rounds_done() < self.spec_iterations() {
                DeviceAction::Launch(self.current_in_a())
            } else {
                DeviceAction::ReadBack(self.current_in_a())
            },
    {
        let from_a = self.rounds_done % 2 == 0;
        if self.rounds_done < self.iterations {
            DeviceAction::Launch(from_a)
        } else {
            DeviceAction::ReadBack(from_a)
        }
    }

    /// Records one completed round: the buffer roles swap, and the
    /// generation just written becomes the current one.
    pub fn round_done(&mut self)
        requires
            old(self).spec_rounds_done() < old(self).spec_iterations(),
        ensures
            final(self).spec_iterations() == old(self).spec_iterations(),
            final(self).spec_rounds_done() == old(self).spec_rounds_done() + 1,
            final(self).current_in_a() == !old(self).current_in_a(),
    {
        self.rounds_done += 1;
    }
}

} // verus!
