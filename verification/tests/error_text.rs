use presence_dimmer::error::Error;

#[test]
fn message_is_the_description() {
    let error = Error { msg: String::from("bus fault") };
    assert_eq!(error.message(), "bus fault");
    assert_eq!(error.msg, "bus fault");
}

#[test]
fn sensor_error_is_described_by_its_debug_text() {
    let error = Error::from(veml7700::Error::I2C(5u8));
    assert_eq!(error.msg, format!("{:?}", veml7700::Error::I2C(5u8)));
    assert_eq!(error.message(), "I2C(5)");
}

#[test]
fn sensor_error_keeps_the_bus_error_in_its_text() {
    let error = Error::from(veml7700::Error::I2C("no acknowledge"));
    assert!(error.message().contains("no acknowledge"));
}
