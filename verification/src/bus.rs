//! Neotron Bus related types.

use crate::types::EnumConversionFail;
use neotron_ffi::FfiString;
use vstd::prelude::*;

verus! {

/// The kinds of Peripheral you can put on a Neotron Bus.
#[derive(Copy, Clone, Debug, PartialEq, Eq, PartialOrd, Ord, Structural)]
pub enum PeripheralKind {
    /// A Neotron Bus Slot.
    ///
    /// The OS will need to read the EEPROM at address `0x50 + slot_id` to find
    /// out what is fitted (if anything).
    Slot,
    /// A hard-wired SD/MMC Card slot wired for SPI Mode.
    ///
    /// The interrupt pin is wired to *Card Detect* with a pull-up, so the line
    /// goes low when a card is inserted and goes high when the card is removed.
    SdCard,
    /// This Peripheral ID is reserved for the BIOS to use.
    Reserved,
}

/// A [`PeripheralKind`] as the byte that crosses the boundary.
///
/// Any byte can arrive; only [`FfiPeripheralKind::make_safe`] turns one into a
/// [`PeripheralKind`], and it refuses a byte that stands for none.
#[derive(Copy, Clone, Debug, PartialEq, Eq, PartialOrd, Ord, Structural)]
pub struct FfiPeripheralKind(pub u8);

impl PeripheralKind {
    /// How many kinds of peripheral there are. Their codes are the numbers below it.
    pub open spec fn count() -> int {
        3
    }

    /// The byte that stands for this kind.
    pub open spec fn code(self) -> u8 {
        match self {
            PeripheralKind::Slot => 0,
            PeripheralKind::SdCard => 1,
            PeripheralKind::Reserved => 2,
        }
    }

    /// The kind that a byte stands for, if it stands for one.
    pub open spec fn from_code(code: u8) -> Option<PeripheralKind> {
        match code {
            0 => Some(PeripheralKind::Slot),
            1 => Some(PeripheralKind::SdCard),
            2 => Some(PeripheralKind::Reserved),
            _ => None,
        }
    }

    /// The byte that stands for this kind.
    pub fn as_u8(self) -> (code: u8)
        ensures
            code == self.code(),
            code < PeripheralKind::count(),
    {
        match self {
            PeripheralKind::Slot => 0,
            PeripheralKind::SdCard => 1,
            PeripheralKind::Reserved => 2,
        }
    }

    /// Wrap this kind for the trip across the boundary.
    pub fn make_ffi_safe(self) -> (ffi: FfiPeripheralKind)
        ensures
            ffi.0 == self.code(),
    {
        FfiPeripheralKind(self.as_u8())
    }
}

impl FfiPeripheralKind {
    /// Wrap a kind for the trip across the boundary.
    pub fn new(value: PeripheralKind) -> (ffi: FfiPeripheralKind)
        ensures
            ffi.0 == value.code(),
    {
        FfiPeripheralKind(value.as_u8())
    }

    /// Check the byte and give the kind it stands for.
    ///
    /// Fails exactly when the byte stands for no kind.
    pub fn make_safe(self) -> (checked: Result<PeripheralKind, EnumConversionFail>)
        ensures
            checked.is_ok() <==> self.0 < PeripheralKind::count(),
            checked.ok() == PeripheralKind::from_code(self.0),
    {
        match self.0 {
            0 => Ok(PeripheralKind::Slot),
            1 => Ok(PeripheralKind::SdCard),
            2 => Ok(PeripheralKind::Reserved),
            _ => Err(EnumConversionFail()),
        }
    }
}

/// Describes a Neotron Bus Peripheral
#[derive(Debug, Clone, Eq, PartialEq)]
pub struct PeripheralInfo {
    /// A name, such as `slot0`
    pub name: FfiString<'static>,
    /// The kind of peripheral
    pub kind: FfiPeripheralKind,
}

/// Every kind comes back from its own code, and no two kinds share one.
pub proof fn lemma_peripheral_kind_codec(a: PeripheralKind, b: PeripheralKind)
    ensures
        a.code() < PeripheralKind::count(),
        PeripheralKind::from_code(a.code()) == Some(a),
        a.code() == b.code() ==> a == b,
{
}

/// A byte stands for a kind exactly when it is below the count, and then
/// that kind's code is the byte.
pub proof fn lemma_peripheral_kind_decode(code: u8)
    ensures
        PeripheralKind::from_code(code).is_some() <==> code < PeripheralKind::count(),
        PeripheralKind::from_code(code) matches Some(v) ==> v.code() == code,
{
}

} // verus!
