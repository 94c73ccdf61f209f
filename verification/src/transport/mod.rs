//! Transport tier: carry opaque framed bytes across any medium.

pub mod backends;
pub mod error;
pub mod framing;
pub mod loopback;
pub mod qos;
pub mod transport;

pub use error::TransportError;
pub use framing::{FrameDecoder, FrameEncoder};
pub use qos::{Channel, History, Qos, Reliability};
pub use transport::{Inbound, LinkState, Transport};
