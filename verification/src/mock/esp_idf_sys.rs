//! Host-side model of the system bindings.

use vstd::prelude::*;

verus! {

/// Error reported by the peripheral layer.
#[derive(Copy, Clone, Eq, PartialEq, Hash, Debug, Structural)]
pub struct EspError();

impl EspError {
    /// The text this error is shown as.
    pub fn to_string(&self) -> (text: String)
        ensures
            text@ == "EspError"@,
    {
        "EspError".to_owned()
    }
}

} // verus!
