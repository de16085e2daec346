//! LAN peer-discovery daemon core: device registry, wire-format codecs,
//! and the decision logic of the discovery workers and the control-channel
//! dispatcher. Socket and pipe I/O live outside this library.

pub mod codec;
pub mod control;
pub mod pear;
pub mod registry;
pub mod tcp;
pub mod udp;
