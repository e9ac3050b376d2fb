//! Command/state synchronization layer for two families of wireless earbuds.
//!
//! The library encodes logical settings changes into protocol-correct byte
//! sequences, keeps a per-device mirror of the hardware configuration, and
//! reconciles optimistic local updates against asynchronous confirmation
//! events coming back from the hardware.  One accessory family speaks a
//! framed control protocol addressed by command identifiers; the other is
//! driven by raw GATT characteristic writes and notifications.

pub mod decoder;
pub mod dispatch;
pub mod encoder;
pub mod messages;
pub mod protocol;
pub mod store;
