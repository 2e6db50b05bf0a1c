//! I²C Bus related types.

use neotron_ffi::FfiString;
use vstd::prelude::*;

verus! {

/// Describes an I²C Bus
#[derive(Debug, Clone, PartialEq, Eq)]
pub struct BusInfo {
    /// Some human-readable name for this I²C device (e.g. `I²C0` or
    /// `DDC0`)
    pub name: FfiString<'static>,
}

} // verus!
