//! A typed battery status snapshot built from the property bag of a
//! power-management service, with the codecs, the countdown reconciliation
//! and the connection retry policy that the snapshot needs.

pub mod battery_info;
pub mod battery_interface;
pub mod device;
pub mod dynamic_value;
pub mod error;
pub mod text;
