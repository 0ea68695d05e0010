//! Every protocol type under one path.

pub use crate::layer2::{EthProto, Ethernet, L2Proto};
pub use crate::layer3::{Ipv4, L3Proto};
pub use crate::layer4::{L4Proto, Tcp, Udp};
