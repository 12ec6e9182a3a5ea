//! Process watchdog core: sampling, anomaly detection, polling cadence and
//! client session rules, with machine-checked contracts.

pub mod clock;
pub mod collector;
pub mod config;
pub mod db;
pub mod detector;
pub mod executor;
pub mod handler;
pub mod learner;
pub mod monitor;
pub mod notifier;
pub mod protocol;
pub mod socket;
pub mod purge;
pub mod text;
