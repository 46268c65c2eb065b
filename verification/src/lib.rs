//! Control core of a message-driven network-control application.
//!
//! The crate holds the decisions of the application and none of its I/O:
//! every component is a value that is told what happened and answers with
//! what to do next. The program around it performs the answer on the
//! transport and the collaborating services and reports the result back.

pub mod alarm;
pub mod config;
pub mod counters;
pub mod dispatch;
pub mod envelope;
pub mod handlers;
pub mod lifecycle;
pub mod orchestrator;
pub mod readiness;
pub mod settings;
pub mod subscription;
