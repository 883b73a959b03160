//! Orchestration of a fingerprint reader: device session, capture with
//! quality selection, template matching, the enroll-or-verify workflow and
//! serial port discovery.
//!
//! The device itself is driven from outside the library. The workflow and the
//! port discovery are state machines: each says which device operation to
//! perform next, and takes the device's reply as its next event. Their
//! transitions are specified over views (`next`, `probe_next`) and the laws
//! of whole runs are proved over those specifications.

pub mod text;
pub mod percent;
pub mod device;
pub mod capture;
pub mod matching;
pub mod outcome;
pub mod workflow;
pub mod ports;
pub mod status;
pub mod listing;
