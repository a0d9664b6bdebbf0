//! The evaluation core of an embedded scripting language: its dynamically typed
//! values, the failures a script can meet, and the driver that takes a script
//! through analysis and execution.

pub mod driver;
pub mod runtime;
pub mod symbol;
