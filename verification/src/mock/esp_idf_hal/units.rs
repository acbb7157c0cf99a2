//! Physical units.

use vstd::prelude::*;

verus! {

/// A frequency in hertz.
#[derive(Copy, Clone, Eq, PartialEq, Hash, Debug, Structural)]
pub struct Hertz(pub u32);

} // verus!
