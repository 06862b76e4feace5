//! Readiness bitmasks.
use vstd::prelude::*;

verus! {

/// The bit that marks an object as readable.
pub const READABLE: usize = 0b00001;

/// The bit that marks an object as writable: the whole write class.
pub const WRITABLE: usize = 0b00010;

/// The bit that marks an error condition on an object.
pub const ERROR: usize = 0b00100;

/// The bit that marks a hang-up of the peer.
pub const HUP: usize = 0b01000;

/// A set of readiness conditions, one bit per condition.
///
/// The writable bit alone forms the write class; every other bit, including
/// platform-specific ones, belongs to the read class.
#[derive(Clone, Copy, Debug, PartialEq, Eq, Structural)]
pub struct Ready {
    pub bits: usize,
}

/// The read-class bits of a raw mask.
pub open spec fn read_class_bits(bits: usize) -> usize {
    bits & !WRITABLE
}

impl Ready {
    /// The set with no condition in it.
    pub fn empty() -> (r: Ready)
        ensures
            r.bits == 0,
    {
        Ready { bits: 0 }
    }

    /// The set holding the readable condition alone.
    pub fn readable() -> (r: Ready)
        ensures
            r.bits == READABLE,
    {
        Ready { bits: READABLE }
    }

    /// The set holding the writable condition alone.
    pub fn writable() -> (r: Ready)
        ensures
            r.bits == WRITABLE,
    {
        Ready { bits: WRITABLE }
    }

    /// The set holding the error condition alone.
    pub fn error() -> (r: Ready)
        ensures
            r.bits == ERROR,
    {
        Ready { bits: ERROR }
    }

    /// The set holding the hang-up condition alone.
    pub fn hup() -> (r: Ready)
        ensures
            r.bits == HUP,
    {
        Ready { bits: HUP }
    }

    /// The set whose raw representation is `bits`.
    pub fn from_usize(bits: usize) -> (r: Ready)
        ensures
            r.bits == bits,
    {
        Ready { bits }
    }

    /// The raw representation of this set.
    pub fn as_usize(&self) -> (r: usize)
        ensures
            r == self.bits,
    {
        self.bits
    }

    pub open spec fn spec_is_empty(self) -> bool {
        self.bits == 0
    }

    pub open spec fn spec_is_writable(self) -> bool {
        self.bits & WRITABLE != 0
    }

    /// Whether the set holds no condition.
    pub fn is_empty(&self) -> (r: bool)
        ensures
            r == self.spec_is_empty(),
    {
        self.bits == 0
    }

    /// Whether the set holds the readable condition.
    pub fn is_readable(&self) -> (r: bool)
        ensures
            r == (self.bits & READABLE != 0),
    {
        self.bits & READABLE != 0
    }

    /// Whether the set holds the writable condition.
    pub fn is_writable(&self) -> (r: bool)
        ensures
            r == self.spec_is_writable(),
    {
        self.bits & WRITABLE != 0
    }

    /// Whether every condition of `other` is in this set.
    pub fn contains(&self, other: Ready) -> (r: bool)
        ensures
            r == (self.bits & other.bits == other.bits),
    {
        self.bits & other.bits == other.bits
    }

    /// The conditions that are in either set.
    pub fn union(&self, other: Ready) -> (r: Ready)
        ensures
            r.bits == self.bits | other.bits,
    {
        Ready { bits: self.bits | other.bits }
    }

    /// The conditions that are in both sets.
    pub fn intersection(&self, other: Ready) -> (r: Ready)
        ensures
            r.bits == self.bits & other.bits,
    {
        Ready { bits: self.bits & other.bits }
    }

    /// The conditions of this set that are not in `other`.
    pub fn difference(&self, other: Ready) -> (r: Ready)
        ensures
            r.bits == self.bits & !other.bits,
    {
        Ready { bits: self.bits & !other.bits }
    }

    /// The read-class conditions of this set: all but the writable one.
    pub fn read_class(&self) -> (r: Ready)
        ensures
            r.bits == read_class_bits(self.bits),
    {
        Ready { bits: self.bits & !WRITABLE }
    }
}

} // verus!
