//! Concurrent credential-probing scheduler: attempts with a bounded retry
//! budget, a pausable dispatch queue with a resizable worker count, and the
//! controller policy that retires or retries finished attempts.

pub mod controller;
pub mod creds;
pub mod report;
pub mod setup;
pub mod scheduler;
