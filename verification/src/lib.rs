//! The verified core of a one-route benchmark server: every request computes
//! the thirtieth Fibonacci number by plain double recursion and reports it
//! together with the time the computation took.

pub mod clock;
pub mod fibonacci;
pub mod handler;
