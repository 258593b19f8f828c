use vstd::prelude::*;

verus! {

/// What one attempt to open a session came to.
#[derive(Clone, Copy, Debug, PartialEq, Eq, Structural)]
pub enum ConnectOutcome {
    /// The session is open.
    Connected,
    /// The attempt ran and failed.
    Failed,
    /// The circuit breaker refused the attempt without running it.
    Rejected,
}

/// What to do next.
#[derive(Clone, Copy, Debug, PartialEq, Eq, Structural)]
pub enum ConnectAction {
    /// Hand the session out.
    Done,
    /// Try again at once.
    Retry,
    /// Sleep for the back-off period, then try again; the attempt is not counted.
    Backoff,
    /// Surface the last failure as a connect error.
    GiveUp,
}

/// Back-off after the circuit breaker refused an attempt, in milliseconds.
pub const BACKOFF_MS: u64 = 1000;

/// The retry budget of one connect: attempts are numbered from one, and a
/// failure after which the number would exceed the budget is final.
pub struct ConnectRetry {
    attempt: usize,
    max_retries: usize,
}

impl ConnectRetry {
    pub closed spec fn spec_attempt(&self) -> nat {
        self.attempt as nat
    }

    pub closed spec fn spec_max_retries(&self) -> nat {
        self.max_retries as nat
    }

    pub open spec fn wf(&self) -> bool {
        &&& self.spec_attempt() >= 1
        &&& self.spec_attempt() == 1 || self.spec_attempt() <= self.spec_max_retries()
    }

    pub fn new(max_retries: usize) -> (r: Self)
        ensures
            r.wf(),
            r.spec_attempt() == 1,
            r.spec_max_retries() == max_retries,
    {
        ConnectRetry { attempt: 1, max_retries }
    }

    /// The number of the attempt about to be made.
    pub fn attempt(&self) -> (r: usize)
        ensures
            r == self.spec_attempt(),
    {
        self.attempt
    }

    /// Takes in the outcome of the current attempt and says what follows.
    pub fn on_outcome(&mut self, outcome: ConnectOutcome) -> (r: ConnectAction)
        requires
            old(self).wf(),
        ensures
            final(self).wf(),
            final(self).spec_max_retries() == old(self).spec_max_retries(),
            outcome == ConnectOutcome::Connected ==> r == ConnectAction::Done
                && final(self).spec_attempt() == old(self).spec_attempt(),
            outcome == ConnectOutcome::Rejected ==> r == ConnectAction::Backoff
                && final(self).spec_attempt() == old(self).spec_attempt(),
            outcome == ConnectOutcome::Failed ==> if old(self).spec_attempt() + 1 > old(self).spec_max_retries() {
                r == ConnectAction::GiveUp && final(self).spec_attempt() == old(self).spec_attempt()
            } else {
                r == ConnectAction::Retry && final(self).spec_attempt() == old(self).spec_attempt() + 1
            },
    {
        match outcome {
            ConnectOutcome::Connected => ConnectAction::Done,
            ConnectOutcome::Rejected => ConnectAction::Backoff,
            ConnectOutcome::Failed => {
                if self.attempt >= self.max_retries {
                    ConnectAction::GiveUp
                } else {
                    self.attempt = self.attempt + 1;
                    ConnectAction::Retry
                }
            },
        }
    }
}

} // verus!
