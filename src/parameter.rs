use vstd::prelude::*;

verus! {

/// A kind of measurement that the service publishes.
#[derive(Debug, Clone, Copy, PartialEq, Eq, Structural)]
pub enum Parameter {
    AirTemperature,
}

/// The service's numeric identifier of a parameter.
pub open spec fn parameter_id(p: Parameter) -> u8 {
    match p {
        Parameter::AirTemperature => 26,
    }
}

impl Parameter {
    /// The service's numeric identifier of this parameter.
    pub fn id(&self) -> (r: u8)
        ensures
            r == parameter_id(*self),
    {
        match self {
            Parameter::AirTemperature => 26,
        }
    }
}

} // verus!
