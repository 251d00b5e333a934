//! Packets that Govee appliances exchange over Bluetooth Low Energy.
//!
//! A command or notification travels in frames of twenty bytes whose last byte
//! is the exclusive or of the others. The crate encodes typed commands into
//! frames, decodes frames into typed packets for a given product, and derives
//! the MQTT side of the H7105 fan from its state.

pub mod base64;
pub mod bytes;
pub mod codec;
pub mod error;
pub mod fan;
pub mod fan_packets;
pub mod frame;
pub mod h5086;
pub mod humidifier;
pub mod kind;
pub mod laws;
pub mod manager;
pub mod nightlight;
pub mod oscillation;
pub mod packet;
pub mod param;
pub mod power;
pub mod scene;
pub mod text;
pub mod wire;
