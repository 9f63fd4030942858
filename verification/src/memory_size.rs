//! A unit-safe byte quantity with decimal and binary units.

use std::cmp::Ordering;
use vstd::std_specs::cmp::PartialOrdSpec;
use vstd::prelude::*;

verus! {

/// Bytes in a kilobyte (decimal).
pub const KB: u64 = 1_000;

/// Bytes in a megabyte (decimal).
pub const MB: u64 = 1_000_000;

/// Bytes in a gigabyte (decimal).
pub const GB: u64 = 1_000_000_000;

/// Bytes in a kibibyte (binary).
pub const KIB: u64 = 1_024;

/// Bytes in a mebibyte (binary).
pub const MIB: u64 = 1_048_576;

/// Bytes in a gibibyte (binary).
pub const GIB: u64 = 1_073_741_824;

/// An amount of digital space, held as a count of bytes.
///
/// The view of a `MemorySize` is that count. Two sizes are equal exactly when
/// their counts are, and sizes are ordered by their counts.
#[derive(Copy, Clone, Debug, PartialEq, Eq, Structural, Hash, Ord)]
pub struct MemorySize(u64);

impl View for MemorySize {
    type V = nat;

    closed spec fn view(&self) -> nat {
        self.0 as nat
    }
}

impl MemorySize {
    /// The size of `bytes` bytes.
    pub fn from_bytes(bytes: u64) -> (size: Self)
        ensures
            size@ == bytes,
    {
        MemorySize(bytes)
    }

    /// The number of bytes.
    pub fn bytes(self) -> (count: u64)
        ensures
            count == self@,
    {
        self.0
    }

    /// The size of `kilobytes` units of 1000 bytes.
    pub fn from_kb(kilobytes: u64) -> (size: Self)
        requires
            kilobytes * KB <= u64::MAX,
        ensures
            size@ == kilobytes * KB,
    {
        MemorySize(kilobytes * KB)
    }

    /// The number of whole kilobytes; a remainder is dropped.
    pub fn kilobytes(self) -> (count: u64)
        ensures
            count == self@ / (KB as nat),
    {
        self.0 / KB
    }

    /// The size of `megabytes` units of 1000 * 1000 bytes.
    pub fn from_mb(megabytes: u64) -> (size: Self)
        requires
            megabytes * MB <= u64::MAX,
        ensures
            size@ == megabytes * MB,
    {
        MemorySize(megabytes * MB)
    }

    /// The number of whole megabytes; a remainder is dropped.
    pub fn megabytes(self) -> (count: u64)
        ensures
            count == self@ / (MB as nat),
    {
        self.0 / MB
    }

    /// The size of `gigabytes` units of 1000 * 1000 * 1000 bytes.
    pub fn from_gb(gigabytes: u64) -> (size: Self)
        requires
            gigabytes * GB <= u64::MAX,
        ensures
            size@ == gigabytes * GB,
    {
        MemorySize(gigabytes * GB)
    }

    /// The number of whole gigabytes; a remainder is dropped.
    pub fn gigabytes(self) -> (count: u64)
        ensures
            count == self@ / (GB as nat),
    {
        self.0 / GB
    }

    /// The size of `kibibytes` units of 1024 bytes.
    pub fn from_kib(kibibytes: u64) -> (size: Self)
        requires
            kibibytes * KIB <= u64::MAX,
        ensures
            size@ == kibibytes * KIB,
    {
        MemorySize(kibibytes * KIB)
    }

    /// The number of whole kibibytes; a remainder is dropped.
    pub fn kibibytes(self) -> (count: u64)
        ensures
            count == self@ / (KIB as nat),
    {
        self.0 / KIB
    }

    /// The size of `mebibytes` units of 1024 * 1024 bytes.
    pub fn from_mib(mebibytes: u64) -> (size: Self)
        requires
            mebibytes * MIB <= u64::MAX,
        ensures
            size@ == mebibytes * MIB,
    {
        MemorySize(mebibytes * MIB)
    }

    /// The number of whole mebibytes; a remainder is dropped.
    pub fn mebibytes(self) -> (count: u64)
        ensures
            count == self@ / (MIB as nat),
    {
        self.0 / MIB
    }

    /// The size of `gibibytes` units of 1024 * 1024 * 1024 bytes.
    pub fn from_gib(gibibytes: u64) -> (size: Self)
        requires
            gibibytes * GIB <= u64::MAX,
        ensures
            size@ == gibibytes * GIB,
    {
        MemorySize(gibibytes * GIB)
    }

    /// The number of whole gibibytes; a remainder is dropped.
    pub fn gibibytes(self) -> (count: u64)
        ensures
            count == self@ / (GIB as nat),
    {
        self.0 / GIB
    }
}

impl PartialOrd for MemorySize {
    /// Sizes compare as their byte counts do.
    fn partial_cmp(&self, other: &Self) -> (order: Option<Ordering>) {
        if self.0 < other.0 {
            Some(Ordering::Less)
        } else if self.0 == other.0 {
            Some(Ordering::Equal)
        } else {
            Some(Ordering::Greater)
        }
    }
}

impl vstd::std_specs::cmp::PartialOrdSpecImpl for MemorySize {
    open spec fn obeys_partial_cmp_spec() -> bool {
        true
    }

    open spec fn partial_cmp_spec(&self, other: &Self) -> Option<Ordering> {
        if self@ < other@ {
            Some(Ordering::Less)
        } else if self@ == other@ {
            Some(Ordering::Equal)
        } else {
            Some(Ordering::Greater)
        }
    }
}

/// The decimal units are powers of 1000 and the binary units powers of 1024.
pub proof fn lemma_units_are_powers()
    ensures
        MB == KB * KB,
        GB == KB * KB * KB,
        MIB == KIB * KIB,
        GIB == KIB * KIB * KIB,
{
}

/// Two sizes are equal exactly when their byte counts are.
pub proof fn lemma_equal_sizes_have_equal_counts(a: MemorySize, b: MemorySize)
    ensures
        a == b <==> a@ == b@,
{
}

/// Sizes are totally ordered by their byte counts: any two compare, they
/// compare as equal exactly when they are equal, the two directions of a
/// comparison agree, and the order is transitive.
pub proof fn lemma_sizes_are_totally_ordered(a: MemorySize, b: MemorySize, c: MemorySize)
    ensures
        a.partial_cmp_spec(&b) == Some(Ordering::Less) <==> a@ < b@,
        a.partial_cmp_spec(&b) == Some(Ordering::Equal) <==> a == b,
        a.partial_cmp_spec(&b) == Some(Ordering::Greater) <==> a@ > b@,
        a.partial_cmp_spec(&b) == Some(Ordering::Less) <==> b.partial_cmp_spec(&a) == Some(
            Ordering::Greater,
        ),
        a.partial_cmp_spec(&b) == Some(Ordering::Less) && b.partial_cmp_spec(&c) == Some(
            Ordering::Less,
        ) ==> a.partial_cmp_spec(&c) == Some(Ordering::Less),
{
}

/// A size that is a whole number of units reads back as that number: the
/// accessor of a unit undoes the constructor of the same unit.
pub proof fn lemma_whole_units_read_back(size: MemorySize, count: nat, unit: nat)
    requires
        unit > 0,
        size@ == count * unit,
    ensures
        size@ / unit == count,
{
    assert((count * unit) / unit == count) by (nonlinear_arith)
        requires
            unit > 0,
    ;
}

/// The accessor of a unit drops the remainder: the count that it gives, taken
/// in units, is the largest that does not exceed the size.
pub proof fn lemma_units_truncate(size: MemorySize, unit: nat)
    requires
        unit > 0,
    ensures
        (size@ / unit) * unit <= size@ < (size@ / unit + 1) * unit,
{
    let bytes = size@;
    assert((bytes / unit) * unit <= bytes < (bytes / unit + 1) * unit) by (nonlinear_arith)
        requires
            unit > 0,
    ;
}

} // verus!
