//! Verified core of an sACN (E1.31) to Bluetooth-LE lighting bridge.
//!
//! The library holds the protocol logic: validating and decoding DMX-over-UDP
//! packets, converting RGB channel values to HSV, building the checksummed
//! vendor command frame, the per-fixture connection state machine with dirty
//! write suppression, and the routing of decoded frames onto fixtures.
//! Network and Bluetooth I/O, the terminal dashboard and process bootstrap
//! live outside the library and feed it plain values.

pub mod color;
pub mod command;
pub mod dirty_details;
pub mod event_counter;
pub mod light;
pub mod light_controller;
pub mod sacn_packet;
