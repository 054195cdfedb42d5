//! A host and container health watchdog: rules that turn resource and
//! container snapshots into alerts, the text that notification channels
//! deliver, and the state machine that drives one monitoring cycle.

pub mod alerting;
pub mod clock;
pub mod container_monitor;
pub mod monitor;
pub mod notification;
pub mod resource_monitor;
pub mod text;
