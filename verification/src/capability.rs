use vstd::prelude::*;

use crate::exception::Exception;

verus! {

/// A callback capsule standing for "resume the suspended poller". At the
/// language boundary this is a context pointer paired with a trampoline
/// function pointer; here the capsule is identified by the value it carries.
#[derive(Clone, Copy, PartialEq, Eq, Structural, Debug)]
pub struct WakerToken {
    pub id: u64,
}

/// What one unconditional take attempt reports. The boundary distinguishes
/// three states explicitly, so that "not yet ready" is never conflated with
/// "completed abnormally".
pub enum ProbeOutcome<T> {
    /// No result is available yet; nothing was consumed.
    Pending,
    /// The operation completed and the caller now exclusively owns the value.
    Ready(T),
    /// The operation completed abnormally.
    Failed(Exception),
}

/// The observable state of a foreign counterpart: everything the adapter's
/// contracts speak about. The counts make "exactly once" obligations exact.
pub struct Obs<T> {
    /// The completed outcome that is available and has not been taken yet.
    pub pending_result: Option<Result<T, Exception>>,
    /// Whether a completed outcome has already been moved out.
    pub taken: bool,
    /// The waker token the foreign side currently holds, if any.
    pub waker: Option<WakerToken>,
    /// Whether the foreign resources behind the handle were released.
    pub destroyed: bool,
    /// How many times the foreign release operation has run.
    pub destroys: nat,
    /// How many times the wake trampoline has run.
    pub wakes: nat,
}

impl<T> Obs<T> {
    /// The same observable state after the completed outcome was moved out.
    pub open spec fn after_take(self) -> Obs<T> {
        Obs {
            pending_result: None,
            taken: true,
            waker: self.waker,
            destroyed: self.destroyed,
            destroys: self.destroys,
            wakes: self.wakes,
        }
    }
}

/// A foreign counterpart nobody has interacted with yet: no token handed
/// over, nothing taken, nothing released, the trampoline never run. The
/// operation itself may or may not have completed already.
pub open spec fn fresh_obs<T>(o: Obs<T>) -> bool {
    &&& !o.taken
    &&& o.waker is None
    &&& !o.destroyed
    &&& o.destroys == 0
    &&& o.wakes == 0
}

/// The capability a foreign result type must provide so that the adapter can
/// await it: an unconditional take attempt, waker registration, and release.
/// There is deliberately no separate readiness probe: a take attempt that
/// reports [`ProbeOutcome::Pending`] is the readiness check, which removes
/// the race window between checking and moving.
pub trait FutureResult: Sized {
    /// The payload type of the eventual result.
    type Payload;

    /// The observable state of the foreign counterpart.
    spec fn obs(&self) -> Obs<Self::Payload>;

    /// The outcome the operation is going to produce — or has produced and
    /// not yet surrendered — if it completes at all. Stable under probing
    /// and waker registration, so a poller can name the value it will
    /// eventually receive.
    spec fn eventual(&self) -> Option<Result<Self::Payload, Exception>>;

    /// Attempts to atomically take ownership of the completed outcome.
    /// Reports `Pending` without any observable effect while the operation
    /// is still in flight; hands the outcome out at most once, and hands
    /// out exactly the operation's eventual outcome. Must not be called
    /// again after a successful take, nor after release.
    fn try_move_result(&mut self) -> (r: ProbeOutcome<Self::Payload>)
        requires
            !old(self).obs().destroyed,
            !old(self).obs().taken,
        ensures
            match r {
                ProbeOutcome::Pending => {
                    &&& old(self).obs().pending_result is None
                    &&& final(self).obs() == old(self).obs()
                    &&& final(self).eventual() == old(self).eventual()
                },
                ProbeOutcome::Ready(v) => {
                    &&& old(self).obs().pending_result == Some(Ok::<Self::Payload, Exception>(v))
                    &&& old(self).eventual() == Some(Ok::<Self::Payload, Exception>(v))
                    &&& final(self).obs() == old(self).obs().after_take()
                },
                ProbeOutcome::Failed(e) => {
                    &&& old(self).obs().pending_result == Some(Err::<Self::Payload, Exception>(e))
                    &&& old(self).eventual() == Some(Err::<Self::Payload, Exception>(e))
                    &&& final(self).obs() == old(self).obs().after_take()
                },
            },
    ;

    /// Transfers ownership of a waker token to the foreign side. The foreign
    /// side runs the trampoline on the token exactly once, when and only when
    /// the result becomes available; running it reclaims the token. Either
    /// the token is still held afterwards and the operation is still in
    /// flight, or the operation completed while the token was being handed
    /// over and the trampoline has already run.
    fn register_waker(&mut self, token: WakerToken)
        requires
            !old(self).obs().destroyed,
            !old(self).obs().taken,
            old(self).obs().waker is None,
            old(self).obs().pending_result is None,
        ensures
            !final(self).obs().destroyed,
            !final(self).obs().taken,
            final(self).obs().destroys == old(self).obs().destroys,
            final(self).eventual() == old(self).eventual(),
            (final(self).obs().waker == Some(token)
                && final(self).obs().wakes == old(self).obs().wakes
                && final(self).obs().pending_result is None)
            || (final(self).obs().pending_result is Some
                && final(self).obs().pending_result == old(self).eventual()
                && final(self).obs().waker is None
                && final(self).obs().wakes == old(self).obs().wakes + 1),
    ;

    /// Releases every foreign resource behind the handle: the still-pending
    /// operation state, any unconsumed outcome, and any outstanding waker
    /// token, which is reclaimed without running the trampoline. Must be
    /// called exactly once.
    fn destroy(&mut self)
        requires
            !old(self).obs().destroyed,
        ensures
            final(self).obs().destroyed,
            final(self).obs().destroys == old(self).obs().destroys + 1,
            final(self).obs().wakes == old(self).obs().wakes,
            final(self).obs().waker is None,
            final(self).obs().taken == old(self).obs().taken,
            final(self).obs().pending_result is None,
    ;
}

} // verus!
