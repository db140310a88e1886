//! Verified core of an XInput-style USB game-controller class engine.
//!
//! The crate models the protocol and pipeline logic of the firmware: the
//! report model and its wire codec, the report-id taxonomy and control
//! request decisions, the bounded button-event queue, and the debounce and
//! aggregation state machines that turn input edges into transmitted
//! reports. Hardware access, endpoint transfers and task scheduling live
//! outside the library and drive these functions.

pub mod control;
pub mod identity;
pub mod mapping;
pub mod pipeline;
pub mod queue;
pub mod report;
