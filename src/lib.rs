//! Typed access to the variables of an external real-time process: a model of the
//! process's variable descriptors, and a read operation driven by polling that
//! requests a value, suspends, completes and can be cancelled.
pub mod raw;
pub mod read;
pub mod typing;
