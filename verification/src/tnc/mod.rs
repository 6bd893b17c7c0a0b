//! Interface to the ARDOP modem: errors, discovered peers and ping replies
pub mod discoveredpeer;
pub mod error;
pub mod pingreply;

pub use discoveredpeer::DiscoveredPeer;
pub use error::{IoError, IoErrorKind, TncError, TncResult};
pub use pingreply::{PingAck, PingFailedReason};
