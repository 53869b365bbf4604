//! The shared exit flag: a reference-counted atomic boolean.
//!
//! The flag makes a single one-way transition, `false` to `true`, and is read
//! and written concurrently through cheap shared handles. A handle can never
//! assert that the flag is still `false` — another thread may set it at any
//! moment — so the contracts here track only the monotone knowledge a handle
//! can soundly carry: once a handle has witnessed the transition, every later
//! read through it (or through a handle derived from it) returns `true`.

use std::sync::atomic::AtomicBool;
use std::sync::atomic::Ordering;
use std::sync::Arc;
use vstd::prelude::*;

verus! {

/// Whether this handle has witnessed the exit flag's one-way transition to
/// `true`. The knowledge is monotone: no operation below ever retracts it.
pub uninterp spec fn flag_observed_set(f: Arc<AtomicBool>) -> bool;

/// Whether the shared flag this handle refers to is ever stored `true`. This
/// is a fact about the shared atomic object itself, not about what this
/// handle has witnessed: a load can return `true` only on a flag for which
/// it holds, so no implementation can fabricate a `true` reading. No
/// contract claims its negation — on a shared flag, "never set" is not a
/// property any one handle can vouch for.
pub uninterp spec fn flag_ever_set(f: Arc<AtomicBool>) -> bool;

/// Relies on `Arc::new` over `AtomicBool::new(false)`: a freshly allocated
/// flag holds `false`, so the new handle has not witnessed the transition.
#[verifier::external_body]
pub(crate) fn flag_new() -> (f: Arc<AtomicBool>)
    ensures
        !flag_observed_set(f),
{
    Arc::new(AtomicBool::new(false))
}

/// Relies on `Arc::clone`: the clone is a handle onto the very same atomic
/// flag, so it carries exactly the knowledge of the handle it was taken from.
#[verifier::external_body]
pub(crate) fn flag_share(f: &Arc<AtomicBool>) -> (g: Arc<AtomicBool>)
    ensures
        g == *f,
{
    Arc::clone(f)
}

/// Relies on `AtomicBool::store`: after storing `true`, the flag holds `true`
/// forever (this crate never stores any other value), so the storing handle
/// has witnessed the transition.
#[verifier::external_body]
pub(crate) fn flag_store_true(f: &mut Arc<AtomicBool>)
    ensures
        flag_observed_set(*final(f)),
        flag_ever_set(*final(f)),
{
    f.store(true, Ordering::Relaxed)
}

/// Relies on `AtomicBool::load`: a load on the same atomic object never
/// observes a value older than a store it is coherence-ordered after, so a
/// handle that has witnessed the transition always reads `true`. A handle
/// without that knowledge may read either value — but it can read `true`
/// only if the flag really was stored `true`.
#[verifier::external_body]
pub(crate) fn flag_load(f: &Arc<AtomicBool>) -> (r: bool)
    ensures
        flag_observed_set(*f) ==> r,
        r ==> flag_ever_set(*f),
{
    f.load(Ordering::Relaxed)
}

} // verus!
