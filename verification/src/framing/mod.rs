//! Framing of the TNC's control and data ports
pub mod control;
pub mod data;
pub mod framer;
