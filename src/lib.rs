//! Session and protocol layer for Bluetooth Low Energy fitness equipment:
//! heart-rate monitors and smart trainers (Heart Rate, Cycling Power,
//! Cycling Speed and Cadence and Fitness Machine services).
pub mod api;
pub mod catalog;
pub mod codec;
pub mod registry;
pub mod scan;
pub mod session;
pub mod types;
