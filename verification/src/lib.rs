//! Local time from the host's clock and time-zone tables.
//!
//! The library holds the rules: the arithmetic on tick counts, the broken-down
//! time and its conversions, the order in which the host is asked, and what
//! its answers come to. It reads the clock, but it makes none of the host's
//! calendar and time-zone calls itself. Each operation that needs one takes
//! the answers received so far and says which call to make next, or what the
//! result is; see [`host`].

pub mod filetime;
pub mod systime;
pub mod host;
pub mod calendar;
pub mod tm;
pub mod timespec;
pub mod local;
pub mod laws;
