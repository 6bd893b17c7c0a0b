//! Connection event tracking, data-port parsing, busy-channel detection,
//! control-stream routing and the decisions that drive the TNC
pub mod asynctnc;
pub mod busylock;
pub mod connevent;
pub mod controlstream;
pub mod data;
pub mod dataevent;
