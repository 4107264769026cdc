//! Per-connection streaming execution session: request validation, the
//! coordinator manager's job bookkeeping, the execute job driver and the
//! session loop's decisions, each as a verified state machine.
pub mod request;
pub mod manager;
pub mod driver;
pub mod session;
