//! ARQ connections: connection information and the reasons a connection
//! fails to complete.
pub mod connectioninfo;
pub mod error;

pub use connectioninfo::{CallDirection, ConnectionInfo};
pub use error::ConnectionFailedReason;
