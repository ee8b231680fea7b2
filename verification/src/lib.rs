//! Fault-tolerant polling of build providers: status aggregation, adaptive
//! poll intervals, and the decisions of the worker supervisor.

pub mod aggregate;
pub mod poller;
pub mod signal;
pub mod source;
pub mod status;
pub mod supervisor;
pub mod worker;
