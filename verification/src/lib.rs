//! Small verified utilities: a sequence maximum, a user directory keyed by
//! id, a counter, decimal integer parsing, checked division, and a
//! bounds-checked buffer accessor.
//!
//! Every operation that can fail reports the failure in its result instead of
//! panicking, and each contract says exactly when that happens.

pub mod arith;
pub mod buffer;
pub mod counter;
pub mod parse;
pub mod stats;
pub mod users;
