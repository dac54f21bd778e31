//! A chunked column of nullable 32-bit integers with elementwise arithmetic,
//! built on Arrow arrays and compute kernels.
//!
//! - `arithmetic` says what the operations mean on mathematical sequences, and
//!   proves what follows from that.
//! - `chunk` wraps one Arrow array and holds the contracts that are assumed of
//!   Arrow.
//! - `column` is the chunked column itself and the operators `+`, `-` and `*`
//!   between columns.

pub mod arithmetic;
pub mod chunk;
pub mod column;
