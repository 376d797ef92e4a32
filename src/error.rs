//! The application's error type.

use vstd::prelude::*;
use vstd::string::StringExecFns;

verus! {

/// Application error type.
#[derive(Debug)]
pub enum AppError {
    /// BLE error.
    BleError(String),
    /// Display error.
    DisplayError(String),
    /// I2C error.
    I2cError(String),
    /// Peripherals error.
    PeripheralsError(String),
    /// Sensor error.
    SensorError(String),
}

impl AppError {
    /// The human-readable text of the error: a prefix naming the part of
    /// the device, then the detail.
    pub open spec fn text(&self) -> Seq<char> {
        match self {
            AppError::BleError(msg) => "BLE error: "@ + msg@,
            AppError::DisplayError(msg) => "Display error: "@ + msg@,
            AppError::I2cError(msg) => "I2C error: "@ + msg@,
            AppError::PeripheralsError(msg) => "Peripherals error: "@ + msg@,
            AppError::SensorError(msg) => "Sensor error: "@ + msg@,
        }
    }

    /// Format the error message.
    pub fn message(&self) -> (r: String)
        ensures
            r@ == self.text(),
    {
        let (prefix, msg) = match self {
            AppError::BleError(msg) => ("BLE error: ", msg),
            AppError::DisplayError(msg) => ("Display error: ", msg),
            AppError::I2cError(msg) => ("I2C error: ", msg),
            AppError::PeripheralsError(msg) => ("Peripherals error: ", msg),
            AppError::SensorError(msg) => ("Sensor error: ", msg),
        };
        let mut s = String::from_str(prefix);
        s.append(msg.as_str());
        s
    }
}

} // verus!
