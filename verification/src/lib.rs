//! Interface to the ARDOP TNC: command rendering, response and data parsing,
//! connection event tracking and the decision logic that drives the TNC.
pub mod arq;
pub mod buffers;
pub mod clock;
pub mod commandchain;
pub mod framing;
pub mod protocol;
pub mod text;
pub mod tnc;
pub mod tncio;
