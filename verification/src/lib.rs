//! Watchdog for a named, window-bearing process.
//!
//! The library holds the decision logic of a process watchdog: a three-state
//! hysteresis machine that judges a process hung after two consecutive polls
//! without a visible window, the per-cycle driver around it (dry-run handling,
//! reset when no process matches), case-insensitive name filtering, the
//! exactly-once release discipline for opened process handles, and the
//! classification of the ambiguous zero return of the window walk. All
//! operating-system calls live outside the library and hand it plain values.

pub mod enumerate;
pub mod lookup;
pub mod names;
pub mod state;
pub mod tracking;

pub use state::Action;
pub use state::LivenessState;
