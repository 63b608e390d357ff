//! The records that the API hands back: the token, the devices and their
//! status values.
use vstd::prelude::*;

verus! {

/// A bearer token of the API.
#[derive(Debug, Clone, Default, PartialEq)]
pub struct Token {
    /// The access token that accompanies every request to the API.
    pub access_token: String,
    /// Type of the access token.
    pub token_type: String,
    /// Validity of the token in seconds, as decimal text.
    pub expires_in: String,
}

/// One setting or reading of a device.
#[derive(Debug, Clone, Default, PartialEq)]
pub struct Status {
    /// Status code, naming what the value is (`temp_current`, `lock`, ...).
    pub code: String,
    /// The value as compact JSON text (`21.5`, `true`, `"auto"`): its type
    /// depends on the code, and it is kept as it came.
    pub value: String,
}

/// A device of the account.
#[derive(Debug, Clone, Default, PartialEq)]
pub struct Device {
    /// Time when last seen online.
    pub active_time: i64,
    /// Time when the device was set up.
    pub create_time: i64,
    /// Unique identifier of the device.
    pub id: String,
    /// User-given name of the device.
    pub name: String,
    /// Online status of the device.
    pub online: bool,
    /// Current settings and readings of the device, in the order received.
    pub status: Vec<Status>,
    /// Whether a gateway controls this device.
    pub sub: bool,
    /// Time zone of the device.
    pub time_zone: String,
    /// Last update of a device setting.
    pub update_time: i64,
    /// Type of device.
    pub device_type: String,
}

/// The reply of the device-list endpoint.
#[derive(Debug, Clone, Default, PartialEq)]
pub struct DevicesResponse {
    /// All devices of the account.
    pub result: Vec<Device>,
    /// An identifier that the API adds to the reply.
    pub t: i64,
}

} // verus!
