//! Types shared by every part of the boundary.

use crate::text::{decimal_digits, hex_digits, push_decimal, push_hex};
use chrono::{TimeZone, Utc};
use vstd::prelude::*;
use vstd::string::StringExecFns;

verus! {

/// Any call across the boundary which can fail reports one of these.
///
/// On the wire the kinds are numbered from 1, so that zero is left free to
/// mean success.
#[derive(Clone, Debug, PartialEq, Eq)]
pub enum Error {
    /// An invalid device number was given to the function.
    InvalidDevice,
    /// That function doesn't work at this time.
    Unimplemented,
    /// The underlying hardware reported some error. The numeric code is
    /// specific to the BIOS implementation but may give some clues.
    DeviceError(u16),
    /// The underlying hardware could not accept the given configuration. The
    /// numeric code is specific to the BIOS implementation but may give some
    /// clues.
    UnsupportedConfiguration(u16),
    /// A block device was used but there was no media in the drive.
    NoMediaFound,
    /// A block device was asked for a block it doesn't have.
    BlockOutOfBounds,
}

impl Error {
    /// The number that stands for this kind of error on the wire.
    pub open spec fn code(self) -> u8 {
        match self {
            Error::InvalidDevice => 1,
            Error::Unimplemented => 2,
            Error::DeviceError(_) => 3,
            Error::UnsupportedConfiguration(_) => 4,
            Error::NoMediaFound => 5,
            Error::BlockOutOfBounds => 6,
        }
    }

    /// The number that stands for this kind of error on the wire. It is
    /// never zero.
    pub fn as_u8(&self) -> (code: u8)
        ensures
            code == self.code(),
            1 <= code <= 6,
    {
        match self {
            Error::InvalidDevice => 1,
            Error::Unimplemented => 2,
            Error::DeviceError(_) => 3,
            Error::UnsupportedConfiguration(_) => 4,
            Error::NoMediaFound => 5,
            Error::BlockOutOfBounds => 6,
        }
    }
}

/// An error that specifically means 'unable to convert integer to enum'.
#[derive(Debug, Copy, Clone)]
pub struct EnumConversionFail();

/// Describes a period of time, after which the BIOS should give up.
#[derive(Copy, Clone, Debug, PartialEq, Eq, PartialOrd, Ord, Structural)]
pub struct Timeout(u32);

impl Timeout {
    /// The period, in milliseconds.
    pub closed spec fn millis(self) -> int {
        self.0 as int
    }

    /// Create a new timeout, in milliseconds.
    pub fn new_ms(milliseconds: u32) -> (timeout: Timeout)
        ensures
            timeout.millis() == milliseconds,
    {
        Timeout(milliseconds)
    }

    /// Create a new timeout, in seconds.
    pub fn new_secs(seconds: u16) -> (timeout: Timeout)
        ensures
            timeout.millis() == seconds * 1000,
    {
        let milliseconds: u32 = (seconds as u32) * 1000;
        Self::new_ms(milliseconds)
    }

    /// Get the timeout, in milliseconds.
    pub fn get_ms(self) -> (milliseconds: u32)
        ensures
            milliseconds == self.millis(),
    {
        self.0
    }
}

/// Represents an instant in time between 2000-01-01T00:00:00Z and
/// 2136-02-07T06:28:16Z.
#[derive(Debug, Clone)]
pub struct Time {
    /// Seconds since the epoch
    pub secs: u32,
    /// Nanoseconds since the last second rolled over
    pub nsecs: u32,
}

/// Represents a tick of some internal monotonic clock.
///
/// Usually runs at 1 kHz.
#[derive(Debug, Clone)]
pub struct Ticks(pub u64);

/// The kinds of memory we know about.
#[derive(Copy, Clone, Debug, PartialEq, Eq, PartialOrd, Ord, Structural)]
pub enum MemoryKind {
    /// Read-write memory.
    ///
    /// The OS is free to use Ram regions for code or data.
    Ram,
    /// Read-only memory
    ///
    /// The OS is free to look inside Rom regions for ROM filing systems.
    Rom,
    /// Used stack.
    ///
    /// This is for information - the OS should not read or write here.
    StackUsed,
    /// Free stack
    ///
    /// This is for information - the OS should not read or write here.
    StackFree,
    /// Reserved memory region
    ///
    /// This is for information - the OS should not read or write here.
    Reserved,
}

/// A [`MemoryKind`] as the byte that crosses the boundary.
///
/// Any byte can arrive; only [`FfiMemoryKind::make_safe`] turns one into a
/// [`MemoryKind`], and it refuses a byte that stands for none.
#[derive(Copy, Clone, Debug, PartialEq, Eq, PartialOrd, Ord, Structural)]
pub struct FfiMemoryKind(pub u8);

impl MemoryKind {
    /// How many kinds of memory there are. Their codes are the numbers below it.
    pub open spec fn count() -> int {
        5
    }

    /// The byte that stands for this kind.
    pub open spec fn code(self) -> u8 {
        match self {
            MemoryKind::Ram => 0,
            MemoryKind::Rom => 1,
            MemoryKind::StackUsed => 2,
            MemoryKind::StackFree => 3,
            MemoryKind::Reserved => 4,
        }
    }

    /// The kind that a byte stands for, if it stands for one.
    pub open spec fn from_code(code: u8) -> Option<MemoryKind> {
        match code {
            0 => Some(MemoryKind::Ram),
            1 => Some(MemoryKind::Rom),
            2 => Some(MemoryKind::StackUsed),
            3 => Some(MemoryKind::StackFree),
            4 => Some(MemoryKind::Reserved),
            _ => None,
        }
    }

    /// The byte that stands for this kind.
    pub fn as_u8(self) -> (code: u8)
        ensures
            code == self.code(),
            code < MemoryKind::count(),
    {
        match self {
            MemoryKind::Ram => 0,
            MemoryKind::Rom => 1,
            MemoryKind::StackUsed => 2,
            MemoryKind::StackFree => 3,
            MemoryKind::Reserved => 4,
        }
    }

    /// Wrap this kind for the trip across the boundary.
    pub fn make_ffi_safe(self) -> (ffi: FfiMemoryKind)
        ensures
            ffi.0 == self.code(),
    {
        FfiMemoryKind(self.as_u8())
    }
}

impl FfiMemoryKind {
    /// Wrap a kind for the trip across the boundary.
    pub fn new(value: MemoryKind) -> (ffi: FfiMemoryKind)
        ensures
            ffi.0 == value.code(),
    {
        FfiMemoryKind(value.as_u8())
    }

    /// Check the byte and give the kind it stands for.
    ///
    /// Fails exactly when the byte stands for no kind.
    pub fn make_safe(self) -> (checked: Result<MemoryKind, EnumConversionFail>)
        ensures
            checked.is_ok() <==> self.0 < MemoryKind::count(),
            checked.ok() == MemoryKind::from_code(self.0),
    {
        match self.0 {
            0 => Ok(MemoryKind::Ram),
            1 => Ok(MemoryKind::Rom),
            2 => Ok(MemoryKind::StackUsed),
            3 => Ok(MemoryKind::StackFree),
            4 => Ok(MemoryKind::Reserved),
            _ => Err(EnumConversionFail()),
        }
    }
}

/// Represents a region in memory.
#[derive(Debug, Clone)]
pub struct MemoryRegion {
    /// The address the region starts at
    pub start: usize,
    /// The length of the region
    pub length: usize,
    /// The kind of memory found at this region
    pub kind: FfiMemoryKind,
}

/// The kinds of power control we can do.
#[derive(Copy, Clone, Debug, PartialEq, Eq, PartialOrd, Ord, Structural)]
pub enum PowerMode {
    /// Turn the system power off
    Off,
    /// Reboot the main processor
    Reset,
    /// Reboot the main processor, but tell it to enter a bootloader mode
    /// for programming.
    ///
    /// Precisely what this will do will depend upon the BIOS. Some BIOSes
    /// will not have a bootloader mode and this will do a regular reboot.
    Bootloader,
}

/// A [`PowerMode`] as the byte that crosses the boundary.
///
/// Any byte can arrive; only [`FfiPowerMode::make_safe`] turns one into a
/// [`PowerMode`], and it refuses a byte that stands for none.
#[derive(Copy, Clone, Debug, PartialEq, Eq, PartialOrd, Ord, Structural)]
pub struct FfiPowerMode(pub u8);

impl PowerMode {
    /// How many power modes there are. Their codes are the numbers below it.
    pub open spec fn count() -> int {
        3
    }

    /// The byte that stands for this mode.
    pub open spec fn code(self) -> u8 {
        match self {
            PowerMode::Off => 0,
            PowerMode::Reset => 1,
            PowerMode::Bootloader => 2,
        }
    }

    /// The mode that a byte stands for, if it stands for one.
    pub open spec fn from_code(code: u8) -> Option<PowerMode> {
        match code {
            0 => Some(PowerMode::Off),
            1 => Some(PowerMode::Reset),
            2 => Some(PowerMode::Bootloader),
            _ => None,
        }
    }

    /// The byte that stands for this mode.
    pub fn as_u8(self) -> (code: u8)
        ensures
            code == self.code(),
            code < PowerMode::count(),
    {
        match self {
            PowerMode::Off => 0,
            PowerMode::Reset => 1,
            PowerMode::Bootloader => 2,
        }
    }

    /// Wrap this mode for the trip across the boundary.
    pub fn make_ffi_safe(self) -> (ffi: FfiPowerMode)
        ensures
            ffi.0 == self.code(),
    {
        FfiPowerMode(self.as_u8())
    }
}

impl FfiPowerMode {
    /// Wrap a mode for the trip across the boundary.
    pub fn new(value: PowerMode) -> (ffi: FfiPowerMode)
        ensures
            ffi.0 == value.code(),
    {
        FfiPowerMode(value.as_u8())
    }

    /// Check the byte and give the mode it stands for.
    ///
    /// Fails exactly when the byte stands for no mode.
    pub fn make_safe(self) -> (checked: Result<PowerMode, EnumConversionFail>)
        ensures
            checked.is_ok() <==> self.0 < PowerMode::count(),
            checked.ok() == PowerMode::from_code(self.0),
    {
        match self.0 {
            0 => Ok(PowerMode::Off),
            1 => Ok(PowerMode::Reset),
            2 => Ok(PowerMode::Bootloader),
            _ => Err(EnumConversionFail()),
        }
    }
}

impl MemoryKind {
    /// The short name of this kind of memory.
    pub open spec fn spec_name(self) -> Seq<char> {
        match self {
            MemoryKind::Rom => "ROM"@,
            MemoryKind::Ram => "RAM"@,
            MemoryKind::StackUsed => "StackUsed"@,
            MemoryKind::StackFree => "StackFree"@,
            MemoryKind::Reserved => "Reserved"@,
        }
    }

    /// The short name of this kind of memory.
    pub fn to_string(&self) -> (name: String)
        ensures
            name@ == self.spec_name(),
    {
        match self {
            MemoryKind::Rom => "ROM".to_owned(),
            MemoryKind::Ram => "RAM".to_owned(),
            MemoryKind::StackUsed => "StackUsed".to_owned(),
            MemoryKind::StackFree => "StackFree".to_owned(),
            MemoryKind::Reserved => "Reserved".to_owned(),
        }
    }
}

impl MemoryRegion {
    /// The size of the region in whole KiB.
    pub open spec fn spec_size_kib(self) -> int {
        self.length as int / 1024
    }

    /// The kind of memory in the region, where a byte that stands for no
    /// kind counts as reserved.
    pub open spec fn spec_kind(self) -> MemoryKind {
        match MemoryKind::from_code(self.kind.0) {
            Some(kind) => kind,
            None => MemoryKind::Reserved,
        }
    }

    /// The address just behind the region.
    pub open spec fn spec_end(self) -> int {
        self.start as int + self.length as int
    }

    /// A region is well formed when it ends within the address space.
    pub open spec fn wf(self) -> bool {
        self.spec_end() <= usize::MAX
    }

    /// The size of the region in whole KiB.
    pub fn size_kib(&self) -> (kib: usize)
        ensures
            kib == self.spec_size_kib(),
    {
        self.length / 1024
    }

    /// The kind of memory in the region, where a byte that stands for no
    /// kind counts as reserved.
    pub fn kind_or_reserved(&self) -> (kind: MemoryKind)
        ensures
            kind == self.spec_kind(),
    {
        match self.kind.make_safe() {
            Ok(kind) => kind,
            Err(_) => MemoryKind::Reserved,
        }
    }

    /// Does the region end within the address space?
    pub fn is_valid(&self) -> (valid: bool)
        ensures
            valid == self.wf(),
    {
        self.length <= usize::MAX - self.start
    }

    /// The line that describes this region: its size in KiB, its kind, and
    /// the addresses of its first byte and of the byte behind its last.
    pub open spec fn spec_text(self) -> Seq<char> {
        decimal_digits(self.spec_size_kib() as nat) + " KiB "@ + self.spec_kind().spec_name()
            + " @ 0x"@ + hex_digits(self.start as nat) + "..0x"@ + hex_digits(
            self.spec_end() as nat,
        )
    }

    /// The line that describes this region.
    pub fn to_string(&self) -> (text: String)
        requires
            self.wf(),
        ensures
            text@ == self.spec_text(),
    {
        let kind = self.kind_or_reserved().to_string();
        let mut text = String::new();
        push_decimal(&mut text, self.size_kib());
        text.append(" KiB ");
        text.append(kind.as_str());
        text.append(" @ 0x");
        push_hex(&mut text, self.start);
        text.append("..0x");
        push_hex(&mut text, self.start + self.length);
        assert(text@ =~= self.spec_text());
        text
    }
}

/// The epoch of [`Time`], 2000-01-01T00:00:00Z, in seconds since
/// 1970-01-01T00:00:00Z. The thirty years between hold seven leap days.
pub const EPOCH_UNIX_SECONDS: i64 = 946_684_800;

/// How `chrono` writes out the UTC date and time that lies `seconds` whole
/// seconds and `nanos` nanoseconds after 1970-01-01T00:00:00Z.
pub uninterp spec fn utc_datetime_text(seconds: int, nanos: int) -> Seq<char>;

/// Can a second hold this many nanoseconds? A count of a thousand million or
/// more stands for a leap second, which only the last second of a minute
/// can hold.
pub open spec fn nanos_fit(unix_seconds: int, nanos: int) -> bool {
    nanos < 1_000_000_000 || (nanos < 2_000_000_000 && unix_seconds % 60 == 59)
}

/// `TimeZone::timestamp_opt` on `Utc`, `single` on what it returns, and the
/// `Display` of the `DateTime<Utc>` that comes out.
///
/// For seconds within the first few centuries after 1970 the call gives a
/// date and time exactly when the nanoseconds fit the second. What is
/// written for it, the date, the time of day and the letters `UTC`, depends on
/// the seconds and the nanoseconds alone.
#[verifier::external_body]
fn utc_text(secs: i64, nsecs: u32) -> (text: Option<String>)
    ensures
        0 <= secs < 0x2_0000_0000 ==> (text.is_some() <==> nanos_fit(secs as int, nsecs as int)),
        text matches Some(t) ==> t@ == utc_datetime_text(secs as int, nsecs as int),
{
    match Utc.timestamp_opt(secs, nsecs).single() {
        Some(t) => Some(format!("{}", t)),
        None => None,
    }
}

impl Time {
    /// This instant in seconds since 1970-01-01T00:00:00Z.
    pub open spec fn spec_unix_seconds(self) -> int {
        self.secs as int + EPOCH_UNIX_SECONDS as int
    }

    /// Does this value describe an instant? It does unless the nanoseconds
    /// are too many for its second.
    pub open spec fn wf(self) -> bool {
        nanos_fit(self.spec_unix_seconds(), self.nsecs as int)
    }

    /// This instant in seconds since 1970-01-01T00:00:00Z.
    pub fn unix_seconds(&self) -> (seconds: i64)
        ensures
            seconds == self.spec_unix_seconds(),
    {
        (self.secs as i64) + EPOCH_UNIX_SECONDS
    }

    /// Does this value describe an instant?
    pub fn is_valid(&self) -> (valid: bool)
        ensures
            valid == self.wf(),
    {
        self.nsecs < 1_000_000_000 || (self.nsecs < 2_000_000_000 && self.unix_seconds() % 60
            == 59)
    }

    /// This instant written out as a UTC date and time.
    pub fn to_string(&self) -> (text: String)
        requires
            self.wf(),
        ensures
            text@ == utc_datetime_text(self.spec_unix_seconds(), self.nsecs as int),
    {
        match utc_text(self.unix_seconds(), self.nsecs) {
            Some(text) => text,
            None => vstd::pervasive::unreached(),
        }
    }
}

/// Every kind comes back from its own code, and no two kinds share one.
pub proof fn lemma_memory_kind_codec(a: MemoryKind, b: MemoryKind)
    ensures
        a.code() < MemoryKind::count(),
        MemoryKind::from_code(a.code()) == Some(a),
        a.code() == b.code() ==> a == b,
{
}

/// A byte stands for a kind exactly when it is below the count, and then
/// that kind's code is the byte.
pub proof fn lemma_memory_kind_decode(code: u8)
    ensures
        MemoryKind::from_code(code).is_some() <==> code < MemoryKind::count(),
        MemoryKind::from_code(code) matches Some(v) ==> v.code() == code,
{
}

/// Every mode comes back from its own code, and no two modes share one.
pub proof fn lemma_power_mode_codec(a: PowerMode, b: PowerMode)
    ensures
        a.code() < PowerMode::count(),
        PowerMode::from_code(a.code()) == Some(a),
        a.code() == b.code() ==> a == b,
{
}

/// A byte stands for a mode exactly when it is below the count, and then
/// that mode's code is the byte.
pub proof fn lemma_power_mode_decode(code: u8)
    ensures
        PowerMode::from_code(code).is_some() <==> code < PowerMode::count(),
        PowerMode::from_code(code) matches Some(v) ==> v.code() == code,
{
}

} // verus!
