//! A verified stack-based bytecode interpreter for short numeric programs:
//! scalar floating-point arithmetic, small fixed-size vector reductions, and a
//! rolling hash. Floating-point values are carried everywhere as their raw
//! 32-bit IEEE-754 bit patterns, so the whole dispatch loop is verified
//! against the recursive model in `model`; only the arithmetic operations and
//! the float/integer conversions are performed by trusted wrappers around a
//! software IEEE-754 implementation.

pub mod float_bits;
pub mod interp;
pub mod laws;
pub mod model;

pub use interp::run;
