//! The error the dimmer reports where a driver's own error cannot serve.
use std::fmt::Debug;
use veml7700::Error as SensorError;
use vstd::prelude::*;

verus! {

#[verifier::external_type_specification]
#[verifier::external_body]
#[verifier::reject_recursive_types(E)]
pub struct ExSensorError<E>(SensorError<E>);

/// An error that carries nothing but its description.
#[derive(Debug)]
pub struct Error {
    pub msg: String,
}

/// The `Debug` rendering of a `veml7700::Error`, as `format!` gives it. What it
/// reads depends on the bus error inside, so nothing is stated of the text.
#[verifier::external_body]
fn describe<T: Debug>(value: &SensorError<T>) -> (text: String) {
    format!("{:?}", value)
}

impl Error {
    /// The description of the error.
    pub fn message(&self) -> (text: String)
        ensures
            text@ == self.msg@,
    {
        self.msg.clone()
    }
}

impl<T: Debug> From<SensorError<T>> for Error {
    /// An error described by the light sensor driver's error.
    fn from(value: SensorError<T>) -> (error: Error) {
        Error { msg: describe(&value) }
    }
}

impl<T: Debug> vstd::std_specs::convert::FromSpecImpl<SensorError<T>> for Error {
    /// The conversion has no specification: the description is the driver's to
    /// choose.
    open spec fn obeys_from_spec() -> bool {
        false
    }

    open spec fn from_spec(value: SensorError<T>) -> Error {
        arbitrary()
    }
}

} // verus!
