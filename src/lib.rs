//! Core of a terminal Bluetooth device manager: the device registry, the
//! known-paired cache, the scan session and the decisions behind each user action.

pub mod actions;
pub mod cache;
pub mod controller;
pub mod device;
pub mod display;
pub mod error;
pub mod icons;
pub mod registry;
pub mod scan;
