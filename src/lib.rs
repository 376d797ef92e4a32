//! Core logic of an SCD41 environmental sensor node: the sensor's wire
//! protocol and the state machine of the GATT peripheral that publishes its
//! readings.

pub mod scd41;
pub mod text;
pub mod ble;
pub mod ble_lemmas;
pub mod error;
pub mod display;
