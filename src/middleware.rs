//! Stages that wrap a service.

pub mod log;
