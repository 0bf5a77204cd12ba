//! A minimal two-asset constant-product market maker.
//!
//! The pool is a pure state machine: each operation takes the pool record and
//! the token balances it touches, and either commits every change or fails
//! leaving all of them as they were.
pub mod authority;
pub mod curve;
pub mod engine;
pub mod laws;
pub mod pool;
