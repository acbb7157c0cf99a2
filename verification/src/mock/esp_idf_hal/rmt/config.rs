//! Configuration of a pulse channel.

use vstd::prelude::*;

verus! {

/// Configuration of a transmit channel.  The host model keeps no setting.
#[derive(Debug, Clone)]
pub struct TransmitConfig {

}

impl TransmitConfig {
    /// The default configuration.
    pub fn new() -> (c: Self)
        ensures
            c == (TransmitConfig {  }),
    {
        Self {  }
    }

    /// Sets the clock divider.  The host model keeps no setting and its
    /// clock is never divided, so the configuration comes back as it was.
    pub fn clock_divider(self, _divider: u8) -> (c: Self)
        ensures
            c == self,
    {
        self
    }
}

} // verus!
