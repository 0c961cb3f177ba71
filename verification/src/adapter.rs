use vstd::prelude::*;

use crate::capability::FutureResult;
use crate::capability::Obs;
use crate::capability::ProbeOutcome;
use crate::capability::WakerToken;
use crate::capability::fresh_obs;
use crate::exception::Exception;

verus! {

/// Where an adapter stands in its lifecycle.
#[derive(Clone, Copy, PartialEq, Eq, Structural, Debug)]
pub enum Phase {
    /// Created; no waker token has ever been handed to the foreign side.
    Pending,
    /// The latest poll handed a waker token to the foreign side.
    WakerRegistered,
    /// A completed outcome was returned; the adapter must not be polled again.
    Complete,
    /// The foreign handle was released.
    Destroyed,
}

/// What one poll of the adapter reports.
pub enum PollResult<T> {
    /// Not ready yet; a waker was registered and the poller should suspend
    /// until the wake trampoline runs.
    Suspended,
    /// The operation finished: its value, or the foreign failure.
    Ready(Result<T, Exception>),
}

/// The steps the adapter's lifecycle state machine can take: polling keeps
/// the adapter waiting or completes it, and destruction is reachable from
/// every live state. Nothing leaves `Destroyed`, and nothing but destruction
/// leaves `Complete`.
pub open spec fn phase_step(pre: Phase, post: Phase) -> bool {
    match pre {
        Phase::Pending => post is WakerRegistered || post is Complete || post is Destroyed,
        Phase::WakerRegistered => post is WakerRegistered || post is Complete
            || post is Destroyed,
        Phase::Complete => post is Destroyed,
        Phase::Destroyed => false,
    }
}

/// Law: completion and destruction are terminal. No step starts from
/// `Destroyed`, and the only step out of `Complete` is destruction.
pub proof fn lemma_terminal_phases(pre: Phase, post: Phase)
    requires
        phase_step(pre, post),
    ensures
        !(pre is Destroyed),
        pre is Complete ==> post is Destroyed,
{
}

/// Law: a completed adapter has consumed its outcome — the result was moved
/// out exactly once, nothing completed is left behind at the boundary, no
/// token is outstanding, and the handle is still alive for destruction.
pub proof fn lemma_complete_means_consumed<F: FutureResult>(fut: &CxxFuture<F>)
    requires
        fut.wf(),
        fut.phase() is Complete,
    ensures
        fut.obs().taken,
        fut.obs().pending_result is None,
        fut.obs().waker is None,
        !fut.obs().destroyed,
{
}

/// Law: no wake is ever missed. If a suspended adapter's token has been
/// reclaimed — the trampoline ran — then the completed outcome is available,
/// so the next poll returns it rather than suspending again.
pub proof fn lemma_wake_implies_ready<F: FutureResult>(fut: &CxxFuture<F>)
    requires
        fut.wf(),
        fut.phase() is WakerRegistered,
        fut.obs().waker is None,
    ensures
        fut.obs().pending_result is Some,
        fut.obs().wakes == 1,
{
}

/// The awaitable adapter: wraps exactly one foreign future handle and
/// implements the suspend/resume protocol over the capability the handle's
/// result type provides. Single-owner poll discipline: one poller, re-polled
/// only after the wake trampoline has run.
pub struct CxxFuture<F: FutureResult> {
    handle: F,
    phase: Phase,
}

impl<F: FutureResult> CxxFuture<F> {
    /// Where the adapter stands in its lifecycle.
    pub closed spec fn phase(&self) -> Phase {
        self.phase
    }

    /// The observable state of the wrapped foreign counterpart.
    pub closed spec fn obs(&self) -> Obs<F::Payload> {
        self.handle.obs()
    }

    /// The outcome the wrapped operation eventually produces, if it
    /// completes at all. Stable under polling, so the value a poll returns
    /// is the one the operation was always going to produce.
    pub closed spec fn eventual(&self) -> Option<Result<F::Payload, Exception>> {
        self.handle.eventual()
    }

    /// The adapter's lifecycle invariant, tying its phase to the observable
    /// state of the foreign counterpart.
    pub open spec fn wf(&self) -> bool {
        match self.phase() {
            Phase::Pending => {
                &&& self.obs().waker is None
                &&& !self.obs().taken
                &&& !self.obs().destroyed
                &&& self.obs().destroys == 0
                &&& self.obs().wakes == 0
            },
            Phase::WakerRegistered => {
                &&& !self.obs().taken
                &&& !self.obs().destroyed
                &&& self.obs().destroys == 0
                &&& ((self.obs().waker is Some && self.obs().wakes == 0
                        && self.obs().pending_result is None)
                    || (self.obs().waker is None && self.obs().wakes == 1
                        && self.obs().pending_result is Some))
            },
            Phase::Complete => {
                &&& self.obs().taken
                &&& self.obs().pending_result is None
                &&& self.obs().waker is None
                &&& !self.obs().destroyed
                &&& self.obs().destroys == 0
                &&& self.obs().wakes <= 1
            },
            Phase::Destroyed => {
                &&& self.obs().destroyed
                &&& self.obs().destroys == 1
                &&& self.obs().waker is None
                &&& self.obs().pending_result is None
                &&& self.obs().wakes <= 1
            },
        }
    }

    /// Wraps a foreign handle nobody has interacted with yet.
    pub fn new(handle: F) -> (fut: CxxFuture<F>)
        requires
            fresh_obs(handle.obs()),
        ensures
            fut.wf(),
            fut.phase() is Pending,
            fut.obs() == handle.obs(),
            fut.eventual() == handle.eventual(),
    {
        CxxFuture { handle, phase: Phase::Pending }
    }

    /// Polls the operation once. Attempts to take the completed outcome
    /// unconditionally; if none is available yet, hands `token` to the
    /// foreign side and suspends. A completed outcome is returned the first
    /// time it is seen and exactly once; in particular, a wake that ran
    /// before this poll is never missed. Must not be called again once it
    /// has returned [`PollResult::Ready`], and a suspended adapter may be
    /// re-polled only after the wake trampoline has reclaimed the token.
    pub fn poll(&mut self, token: WakerToken) -> (r: PollResult<F::Payload>)
        requires
            old(self).wf(),
            old(self).phase() is Pending || old(self).phase() is WakerRegistered,
            old(self).phase() is WakerRegistered ==> old(self).obs().waker is None,
        ensures
            final(self).wf(),
            phase_step(old(self).phase(), final(self).phase()),
            old(self).obs().pending_result is Some ==> r is Ready,
            match r {
                PollResult::Ready(out) => {
                    &&& old(self).obs().pending_result == Some(out)
                    &&& old(self).eventual() == Some(out)
                    &&& final(self).phase() is Complete
                    &&& final(self).obs() == old(self).obs().after_take()
                },
                PollResult::Suspended => {
                    &&& old(self).obs().pending_result is None
                    &&& final(self).eventual() == old(self).eventual()
                    &&& final(self).phase() is WakerRegistered
                    &&& !final(self).obs().taken
                    &&& final(self).obs().destroys == 0
                    &&& ((final(self).obs().waker == Some(token)
                            && final(self).obs().wakes == old(self).obs().wakes)
                        || (final(self).obs().pending_result is Some
                            && final(self).obs().pending_result == old(self).eventual()
                            && final(self).obs().waker is None
                            && final(self).obs().wakes == old(self).obs().wakes + 1))
                },
            },
    {
        match self.handle.try_move_result() {
            ProbeOutcome::Ready(v) => {
                self.phase = Phase::Complete;
                PollResult::Ready(Ok(v))
            },
            ProbeOutcome::Failed(e) => {
                self.phase = Phase::Complete;
                PollResult::Ready(Err(e))
            },
            ProbeOutcome::Pending => {
                self.handle.register_waker(token);
                self.phase = Phase::WakerRegistered;
                PollResult::Suspended
            },
        }
    }

    /// Releases the foreign handle. Valid from every live state — before any
    /// poll, while suspended, or after completion — and runs the foreign
    /// release exactly once over the adapter's lifetime. An outstanding waker
    /// token is reclaimed without ever running the trampoline; destruction
    /// before the first registration means the trampoline never ran at all.
    pub fn destroy(&mut self)
        requires
            old(self).wf(),
            !(old(self).phase() is Destroyed),
        ensures
            final(self).wf(),
            phase_step(old(self).phase(), final(self).phase()),
            final(self).phase() is Destroyed,
            final(self).obs().destroys == 1,
            final(self).obs().waker is None,
            final(self).obs().wakes == old(self).obs().wakes,
            old(self).phase() is Pending ==> final(self).obs().wakes == 0,
            final(self).obs().taken == old(self).obs().taken,
    {
        self.handle.destroy();
        self.phase = Phase::Destroyed;
    }

    /// Where the adapter stands, for callers outside the proof.
    pub fn current_phase(&self) -> (p: Phase)
        ensures
            p == self.phase(),
    {
        self.phase
    }

    /// A view of the wrapped foreign counterpart.
    pub fn counterpart(&self) -> (h: &F)
        ensures
            h.obs() == self.obs(),
    {
        &self.handle
    }
}

} // verus!
