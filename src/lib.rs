//! Control plane of a remote transmitter kill switch: the events that travel
//! on the bus, and the decisions taken on them.

pub mod config;
pub mod event;
pub mod input;
pub mod json;
pub mod mqtt;
pub mod output_task;
pub mod processing;
pub mod schema;
