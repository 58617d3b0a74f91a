//! Security auditing of hosted repositories: the closed set of checks, the
//! decisions each check takes on what the hosting platform returns, the
//! fail-fast processor that runs the configured checks on one repository, and
//! the scheduler that fans processors out over all repositories.
//!
//! Every network exchange happens outside this crate: the functions here take
//! what was read as plain values and say what to report or to write next.

pub mod checks;
pub mod permissions;
pub mod processor;
pub mod scheduler;
pub mod secrets;
