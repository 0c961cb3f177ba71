use vstd::prelude::*;

use crate::capability::FutureResult;
use crate::capability::Obs;
use crate::capability::ProbeOutcome;
use crate::capability::WakerToken;
use crate::capability::fresh_obs;
use crate::exception::Exception;

verus! {

/// An in-memory foreign counterpart with a scripted completion, proved to
/// satisfy the [`FutureResult`] contract. It stands in for the foreign side
/// in scenarios: the operation can start out completed, complete while a
/// waker is being registered — which models a completion thread racing the
/// registration and firing the trampoline before the next poll — or never
/// complete at all. It also counts every interaction, so a scenario can
/// check "exactly once" and "never" claims on the foreign boundary.
pub struct ModelCounterpart<T> {
    outcome: Option<Result<T, Exception>>,
    completed: bool,
    complete_on_register: bool,
    taken: bool,
    waker: Option<WakerToken>,
    destroyed: bool,
    trampoline_fired: bool,
    woken_token: Option<WakerToken>,
    probe_calls: u64,
    register_calls: u64,
}

impl<T> FutureResult for ModelCounterpart<T> {
    type Payload = T;

    closed spec fn obs(&self) -> Obs<T> {
        Obs {
            pending_result: if self.completed && !self.taken {
                self.outcome
            } else {
                None
            },
            taken: self.taken,
            waker: self.waker,
            destroyed: self.destroyed,
            destroys: if self.destroyed {
                1
            } else {
                0
            },
            wakes: if self.trampoline_fired {
                1
            } else {
                0
            },
        }
    }

    closed spec fn eventual(&self) -> Option<Result<T, Exception>> {
        if self.taken || self.destroyed {
            None
        } else {
            self.outcome
        }
    }

    fn try_move_result(&mut self) -> (r: ProbeOutcome<T>) {
        // The interaction counters saturate; no scenario comes near the bound.
        if self.probe_calls < u64::MAX {
            self.probe_calls = self.probe_calls + 1;
        }
        if !self.completed {
            ProbeOutcome::Pending
        } else {
            match self.outcome.take() {
                None => ProbeOutcome::Pending,
                Some(Ok(v)) => {
                    self.taken = true;
                    ProbeOutcome::Ready(v)
                },
                Some(Err(e)) => {
                    self.taken = true;
                    ProbeOutcome::Failed(e)
                },
            }
        }
    }

    fn register_waker(&mut self, token: WakerToken) {
        if self.register_calls < u64::MAX {
            self.register_calls = self.register_calls + 1;
        }
        if self.complete_on_register && !self.completed && !self.trampoline_fired
            && self.outcome.is_some() {
            // The scripted completion lands while the token is being handed
            // over: the result becomes available and the trampoline runs at
            // once, reclaiming the token before the next poll.
            self.completed = true;
            self.trampoline_fired = true;
            self.woken_token = Some(token);
        } else {
            self.waker = Some(token);
        }
    }

    fn destroy(&mut self) {
        self.destroyed = true;
        self.waker = None;
        self.outcome = None;
    }
}

impl<T> ModelCounterpart<T> {
    /// A counterpart whose operation already completed with `outcome`.
    pub fn already_completed(outcome: Result<T, Exception>) -> (c: ModelCounterpart<T>)
        ensures
            fresh_obs(c.obs()),
            c.obs().pending_result == Some(outcome),
            c.eventual() == Some(outcome),
    {
        ModelCounterpart {
            outcome: Some(outcome),
            completed: true,
            complete_on_register: false,
            taken: false,
            waker: None,
            destroyed: false,
            trampoline_fired: false,
            woken_token: None,
            probe_calls: 0,
            register_calls: 0,
        }
    }

    /// A counterpart whose operation is still in flight and completes with
    /// `outcome` while the first waker registration is underway, firing the
    /// trampoline before the next poll.
    pub fn completes_on_registration(outcome: Result<T, Exception>) -> (c: ModelCounterpart<T>)
        ensures
            fresh_obs(c.obs()),
            c.obs().pending_result is None,
            c.eventual() == Some(outcome),
    {
        ModelCounterpart {
            outcome: Some(outcome),
            completed: false,
            complete_on_register: true,
            taken: false,
            waker: None,
            destroyed: false,
            trampoline_fired: false,
            woken_token: None,
            probe_calls: 0,
            register_calls: 0,
        }
    }

    /// A counterpart whose operation never completes within the scenario.
    pub fn never_ready() -> (c: ModelCounterpart<T>)
        ensures
            fresh_obs(c.obs()),
            c.obs().pending_result is None,
            c.eventual() is None,
    {
        ModelCounterpart {
            outcome: None,
            completed: false,
            complete_on_register: false,
            taken: false,
            waker: None,
            destroyed: false,
            trampoline_fired: false,
            woken_token: None,
            probe_calls: 0,
            register_calls: 0,
        }
    }

    /// How many times the foreign release ran.
    pub fn destroy_count(&self) -> (n: u64)
        ensures
            n as nat == self.obs().destroys,
    {
        if self.destroyed {
            1
        } else {
            0
        }
    }

    /// How many times the wake trampoline ran.
    pub fn wake_count(&self) -> (n: u64)
        ensures
            n as nat == self.obs().wakes,
    {
        if self.trampoline_fired {
            1
        } else {
            0
        }
    }

    /// Whether the foreign side currently holds a waker token.
    pub fn holds_waker(&self) -> (b: bool)
        ensures
            b == (self.obs().waker is Some),
    {
        self.waker.is_some()
    }

    /// Whether a completed outcome has been moved out.
    pub fn result_taken(&self) -> (b: bool)
        ensures
            b == self.obs().taken,
    {
        self.taken
    }

    /// Whether the foreign resources were released.
    pub fn is_destroyed(&self) -> (b: bool)
        ensures
            b == self.obs().destroyed,
    {
        self.destroyed
    }

    /// The token the trampoline ran on, if it ran.
    pub closed spec fn spec_woken_token(&self) -> Option<WakerToken> {
        self.woken_token
    }

    /// How many take attempts have been made on this counterpart.
    pub closed spec fn spec_probe_calls(&self) -> u64 {
        self.probe_calls
    }

    /// How many waker registrations have been made on this counterpart.
    pub closed spec fn spec_register_calls(&self) -> u64 {
        self.register_calls
    }

    /// The token the trampoline ran on, if it ran.
    pub fn woken_token(&self) -> (t: Option<WakerToken>)
        ensures
            t == self.spec_woken_token(),
    {
        self.woken_token
    }

    /// How many take attempts the adapter has made.
    pub fn probe_count(&self) -> (n: u64)
        ensures
            n == self.spec_probe_calls(),
    {
        self.probe_calls
    }

    /// How many waker registrations the adapter has made.
    pub fn register_count(&self) -> (n: u64)
        ensures
            n == self.spec_register_calls(),
    {
        self.register_calls
    }
}

} // verus!
