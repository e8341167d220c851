//! Type databases and calling-convention models for binary analysis.
//!
//! * [`cio`]: C type information, and the databases that hold it.
//! * [`ir`]: types, variables and address spaces.
//! * [`lifter`]: calling conventions, and where values are when a function is
//!   called.
//! * [`names`]: interned names.
//! * [`search`]: first matches in sequences.

pub mod cio;
pub mod ir;
pub mod lifter;
pub mod names;
pub mod search;
