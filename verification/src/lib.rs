//! Turning a conversion request into one run of an external audio transcoder.
//!
//! The crate holds the decisions of a conversion and none of its effects: which
//! paths must exist before the transcoder is started, the argument list it is
//! started with, and how its exit is read. A driver performs the effects that
//! [`pipeline::Conversion`] asks for and reports back what it saw.

pub mod command;
pub mod decimal;
pub mod notice;
pub mod outcome;
pub mod paths;
pub mod pipeline;
pub mod request;
pub mod trace;
