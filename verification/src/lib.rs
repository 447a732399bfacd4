//! Codecs for a compact host-controller command protocol and for the
//! bit-packed status reports of a pointing peripheral, together with the
//! state machine that drives a polling session over an external transport.

pub mod catalog;
pub mod device_id;
pub mod errors;
pub mod frame;
pub mod poll;
pub mod report;
