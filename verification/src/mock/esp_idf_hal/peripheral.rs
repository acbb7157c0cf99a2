//! Peripheral singletons.

use vstd::prelude::*;

verus! {

/// A value that grants access to one peripheral.
pub trait Peripheral: Sized {
    /// Peripheral singleton type
    type P;
}

} // verus!
