//! The event enumeration produced toward the presentation layer: the sole
//! channel by which the synchronization core informs the rest of the system
//! of connections, disconnections and inbound protocol events.

use vstd::prelude::*;
use crate::protocol::AACPEvent;

verus! {

/// An event for the presentation layer.  The `String` of each variant is
/// the device identifier (MAC address) the event concerns.
#[derive(Debug, Clone)]
pub enum BluetoothUIMessage {
    /// A request to open the settings window.
    OpenWindow,
    /// A device connected.
    DeviceConnected(String),
    /// A device disconnected.
    DeviceDisconnected(String),
    /// A framed family-A protocol event arrived.
    AACPUIEvent(String, AACPEvent),
    /// A raw family-B notification arrived: attribute handle and payload.
    ATTNotification(String, u16, Vec<u8>),
    /// Nothing happened.
    NoOp,
}

} // verus!
