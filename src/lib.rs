//! A platform-independent model of a Bluetooth Low Energy GATT client: adapter
//! events, device selection, attribute value caching and the notification
//! subscription state machine, each with a verified contract.

pub mod adapter;
pub mod cache;
pub mod characteristic;
pub mod descriptor;
pub mod device;
pub mod error;
pub mod ids;
pub mod notify;
pub mod properties;
