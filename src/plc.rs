//! Field hardware inputs read by the field management system.

use vstd::prelude::*;

verus! {

/// Raw digital inputs of the field PLC. The e-stop input is wired
/// normally closed: it reads `true` while the button is released.
#[derive(Clone, Copy, Debug, PartialEq, Eq, Structural)]
pub struct PLCInputs {
    pub field_estop: bool,
}

#[derive(Clone, Copy, Debug, PartialEq, Eq, Structural)]
pub struct PLC {
    inputs: PLCInputs,
}

impl PLC {
    pub closed spec fn inputs_spec(&self) -> PLCInputs {
        self.inputs
    }

    #[must_use]
    pub fn new(inputs: PLCInputs) -> (r: Self)
        ensures
            r.inputs_spec() == inputs,
    {
        Self { inputs }
    }

    /// Whether the field e-stop is asserted (its input has opened).
    pub fn get_field_estop(&self) -> (r: bool)
        ensures
            r == !self.inputs_spec().field_estop,
    {
        !self.inputs.field_estop
    }
}

} // verus!
