//! The version descriptor: three 8-bit parts packed into one 32-bit word.

use core::cmp::Ordering;
use vstd::std_specs::cmp::PartialOrdSpec;
use vstd::prelude::*;

verus! {

/// Describes a semantic version.
///
/// The version is stored as a 32-bit value whose bytes are, most significant
/// first, zero, the major part, the minor part and the patch part. Two
/// versions compare as their packed words do.
#[derive(Copy, Clone, Debug, PartialEq, Eq, Ord, Structural)]
pub struct Version(pub u32);

impl PartialOrd for Version {
    /// Compares the packed words.
    fn partial_cmp(&self, other: &Version) -> (order: Option<Ordering>) {
        if self.0 < other.0 {
            Some(Ordering::Less)
        } else if self.0 > other.0 {
            Some(Ordering::Greater)
        } else {
            Some(Ordering::Equal)
        }
    }
}

impl vstd::std_specs::cmp::PartialOrdSpecImpl for Version {
    open spec fn obeys_partial_cmp_spec() -> bool {
        true
    }

    open spec fn partial_cmp_spec(&self, other: &Version) -> Option<Ordering> {
        if self.0 < other.0 {
            Some(Ordering::Less)
        } else if self.0 > other.0 {
            Some(Ordering::Greater)
        } else {
            Some(Ordering::Equal)
        }
    }
}

/// The word that holds `major`, `minor` and `patch` below a zero top byte.
pub open spec fn packed_version(major: u8, minor: u8, patch: u8) -> int {
    major as int * 0x1_0000 + minor as int * 0x100 + patch as int
}

impl Version {
    /// A version made from three parts has a zero top byte.
    pub open spec fn wf(self) -> bool {
        self.0 < 0x100_0000
    }

    /// Where this version stands to another by their parts: negative where
    /// it comes before, zero where the parts are the same, positive where it
    /// comes after. The major part decides first, then the minor part, then
    /// the patch part.
    pub open spec fn precedence(self, other: Version) -> int {
        if self.spec_major() != other.spec_major() {
            self.spec_major() - other.spec_major()
        } else if self.spec_minor() != other.spec_minor() {
            self.spec_minor() - other.spec_minor()
        } else {
            self.spec_patch() - other.spec_patch()
        }
    }

    /// The major part of the packed word.
    pub open spec fn spec_major(self) -> int {
        (self.0 as int / 0x1_0000) % 0x100
    }

    /// The minor part of the packed word.
    pub open spec fn spec_minor(self) -> int {
        (self.0 as int / 0x100) % 0x100
    }

    /// The patch part of the packed word.
    pub open spec fn spec_patch(self) -> int {
        self.0 as int % 0x100
    }

    /// Create a new Version.
    pub fn new(major: u8, minor: u8, patch: u8) -> (v: Version)
        ensures
            v.0 as int == packed_version(major, minor, patch),
            v.wf(),
            v.spec_major() == major,
            v.spec_minor() == minor,
            v.spec_patch() == patch,
    {
        let word: u32 = (major as u32) * 0x1_0000 + (minor as u32) * 0x100 + (patch as u32);
        Version(word)
    }

    /// Get the major version portion.
    pub fn major(&self) -> (part: u8)
        ensures
            part as int == self.spec_major(),
    {
        let word: u32 = self.0;
        assert(((word >> 16) & 0xff) == (word / 0x1_0000) % 0x100) by (bit_vector);
        assert(((word >> 16) & 0xff) < 0x100) by (bit_vector);
        ((word >> 16) & 0xff) as u8
    }

    /// Get the minor version portion.
    pub fn minor(&self) -> (part: u8)
        ensures
            part as int == self.spec_minor(),
    {
        let word: u32 = self.0;
        assert(((word >> 8) & 0xff) == (word / 0x100) % 0x100) by (bit_vector);
        assert(((word >> 8) & 0xff) < 0x100) by (bit_vector);
        ((word >> 8) & 0xff) as u8
    }

    /// Get the patch version portion.
    pub fn patch(&self) -> (part: u8)
        ensures
            part as int == self.spec_patch(),
    {
        let word: u32 = self.0;
        assert((word & 0xff) == word % 0x100) by (bit_vector);
        assert((word & 0xff) < 0x100) by (bit_vector);
        (word & 0xff) as u8
    }
}

/// Packing three parts and taking them out again gives the same three parts.
pub proof fn lemma_version_round_trip(major: u8, minor: u8, patch: u8)
    ensures
        0 <= packed_version(major, minor, patch) < 0x100_0000,
        Version(packed_version(major, minor, patch) as u32).spec_major() == major,
        Version(packed_version(major, minor, patch) as u32).spec_minor() == minor,
        Version(packed_version(major, minor, patch) as u32).spec_patch() == patch,
{
}

/// A version with a zero top byte is the packing of the three parts it
/// holds.
pub proof fn lemma_version_repack(v: Version)
    requires
        v.wf(),
    ensures
        v.0 as int == packed_version(
            v.spec_major() as u8,
            v.spec_minor() as u8,
            v.spec_patch() as u8,
        ),
{
}

/// Versions are ordered by the major part, then by the minor part, then by
/// the patch part: `<`, `==` and `>` on two versions say which of the two
/// comes first by its parts.
pub proof fn lemma_version_order(a: Version, b: Version)
    requires
        a.wf(),
        b.wf(),
    ensures
        a.partial_cmp_spec(&b) == Some(Ordering::Less) <==> a.precedence(b) < 0,
        a.partial_cmp_spec(&b) == Some(Ordering::Equal) <==> a.precedence(b) == 0,
        a.partial_cmp_spec(&b) == Some(Ordering::Greater) <==> a.precedence(b) > 0,
        a.precedence(b) == 0 <==> a == b,
{
}

} // verus!
