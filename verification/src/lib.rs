//! Process-wide shutdown coordination for independent tasks and threads.
//!
//! One participant announces "the program should exit" by signalling; every
//! other participant observes the announcement by polling a shared flag or by
//! suspending on a broadcast notification. The flag is the single source of
//! truth: once it has been set it never returns to `false`, so late observers
//! and late subscribers still learn the outcome.
//!
//! The library is organised leaf-first:
//! - [`flag`] wraps the shared atomic exit flag,
//! - [`notify`] wraps the multi-subscriber notification channel,
//! - [`instance`] combines the two into the cloneable [`ChexInstance`] handle,
//! - [`global`] holds [`Chex`], the once-initialized owner of the signal state.

pub mod flag;
pub mod global;
pub mod instance;
pub mod notify;

pub use global::Chex;
pub use instance::ChexInstance;
pub use notify::NotifyError;
