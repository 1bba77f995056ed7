//! Small exported routines of a binary module: integer arithmetic and the
//! joining of two C strings' contents.
pub mod arith;
pub mod cstr;

pub use arith::{add_one, sum};
pub use cstr::concat_bytes;
