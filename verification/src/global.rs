//! The once-initialized owner of the signal state.
//!
//! A [`Chex`] starts uninitialized, is initialized exactly once by
//! [`Chex::init`], and then hands out [`ChexInstance`] handles for the rest
//! of its life. Repeat initialization is a no-op: it never replaces the
//! signal state, so a flag set between two `init` calls stays set. A host
//! program that wants process-wide ergonomics places one `Chex` behind a
//! thread-safe one-time guard and shares it.

use crate::instance::ChexInstance;
use crate::notify::NotifyError;
use vstd::prelude::*;

verus! {

/// The owner of one signal state, created lazily on first [`Chex::init`].
pub struct Chex {
    instance: Option<ChexInstance>,
}

impl Chex {
    /// Whether [`Chex::init`] has run.
    pub closed spec fn is_init(self) -> bool {
        self.instance is Some
    }

    /// The signal state this owner holds once initialized.
    pub closed spec fn inst(self) -> ChexInstance {
        self.instance->Some_0
    }

    /// Well-formedness: once initialized, the held signal state is
    /// well-formed.
    pub closed spec fn wf(self) -> bool {
        self.is_init() ==> self.inst().wf()
    }

    /// A fresh, uninitialized owner. Every operation except [`Chex::init`]
    /// demands initialization first; calling one earlier is a programming
    /// error, not a runtime condition.
    pub fn new() -> (r: Self)
        ensures
            !r.is_init(),
            r.wf(),
    {
        Chex { instance: None }
    }

    /// Create the signal state on first call; do nothing on every later
    /// call. Idempotent: a repeat call leaves the owner — in particular an
    /// already-signalled flag — exactly as it found it.
    pub fn init(&mut self)
        ensures
            final(self).is_init(),
            old(self).wf() ==> final(self).wf(),
            !old(self).is_init() ==> !final(self).inst().exit_known(),
            !old(self).is_init() ==> final(self).inst().capacity() == 1,
            old(self).is_init() ==> *final(self) == *old(self),
    {
        if self.instance.is_none() {
            self.instance = Some(ChexInstance::new());
        }
    }

    /// Whether [`Chex::init`] has run; the runtime guard for the operations
    /// below.
    pub fn is_initialized(&self) -> (r: bool)
        ensures
            r == self.is_init(),
    {
        self.instance.is_some()
    }

    /// A fresh handle bound to the held signal state — it shares the
    /// state's exit flag and feeds the state's own channel — with exactly
    /// the knowledge the owner has: if the owner witnessed the signal, the
    /// new handle polls `true` from its first use.
    pub fn get_instance(&self) -> (r: ChexInstance)
        requires
            self.is_init(),
        ensures
            r.shares_state_with(self.inst()),
            r.exit_known() == self.inst().exit_known(),
            r.capacity() == self.inst().capacity(),
            self.wf() ==> r.wf(),
    {
        self.instance.as_ref().unwrap().clone()
    }

    /// Non-blocking read of the exit flag, as [`ChexInstance::poll_exit`]:
    /// a witnessing owner reads `true`, and a `true` reading comes only
    /// from a flag that really was set.
    pub fn poll_exit(&self) -> (r: bool)
        requires
            self.is_init(),
        ensures
            self.inst().exit_known() ==> r,
            r ==> self.inst().exit_ever_set(),
    {
        self.instance.as_ref().unwrap().poll_exit()
    }

    /// Signal every listener to exit, as [`ChexInstance::signal_exit`]:
    /// the flag is set no matter what the notification channel does, a
    /// successful return means a notification really was published on the
    /// held state's channel, and on a well-formed owner the publish never
    /// fails for want of room.
    pub fn signal_exit(&mut self) -> (r: Result<(), NotifyError>)
        requires
            old(self).is_init(),
        ensures
            final(self).is_init(),
            final(self).inst().exit_known(),
            final(self).inst().exit_ever_set(),
            r is Ok ==> final(self).inst().notified(),
            old(self).wf() ==> final(self).wf(),
            old(self).wf() ==> !(r matches Err(NotifyError::Full)),
    {
        let mut inst = self.instance.take().unwrap();
        let r = inst.signal_exit();
        self.instance = Some(inst);
        r
    }
}

} // verus!
