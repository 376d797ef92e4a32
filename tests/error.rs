use scd41_node::error::AppError;

#[test]
fn app_error_messages() {
    assert_eq!(AppError::BleError("x".to_string()).message(), "BLE error: x");
    assert_eq!(AppError::DisplayError("y".to_string()).message(), "Display error: y");
    assert_eq!(AppError::I2cError("bus".to_string()).message(), "I2C error: bus");
    assert_eq!(
        AppError::PeripheralsError("taken".to_string()).message(),
        "Peripherals error: taken"
    );
    assert_eq!(AppError::SensorError(String::new()).message(), "Sensor error: ");
}
