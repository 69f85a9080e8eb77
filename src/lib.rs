//! Periodic TCP connection probing: a paced, cancellable probe scheduler and
//! an aggregator that folds probe outcomes into running connectivity statistics.

pub mod pinger;
pub mod report;
pub mod tcping;
pub mod time;
pub mod tracker;
pub mod user_input;
