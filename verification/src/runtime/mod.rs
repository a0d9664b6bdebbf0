//! What a running script works on.

pub mod ops;
pub mod panic;
pub mod source;
pub mod value;

pub use panic::Panic;
pub use source::SourcePos;
