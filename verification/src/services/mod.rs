//! The three checkers: what they derive from readings, and what they ask the
//! caller to do.

pub mod prefetch;
pub mod recent;
pub mod system_restore;
