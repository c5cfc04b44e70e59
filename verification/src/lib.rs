//! Startup and shutdown logic of the drainer, as verified state machines.
//!
//! The modules decide; the surrounding program performs the awaits, the sleeps
//! and the logging, and reports back what happened.

pub mod application;
pub mod application_laws;
pub mod bootstrap;
pub mod bootstrap_laws;
pub mod cancellation;
pub mod decimal;
pub mod delay;
pub mod errors;
pub mod settings;
pub mod store_init;
pub mod store_init_laws;
pub mod test_support;
