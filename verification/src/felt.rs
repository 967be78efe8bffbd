use vstd::prelude::*;

verus! {

/// 2^128, the weight of the high half of a `Felt`.
pub open spec fn half_base() -> int {
    0x1_0000_0000_0000_0000_0000_0000_0000_0000int
}

/// The prime of the Starknet field: 2^251 + 17 * 2^192 + 1.
pub open spec fn field_modulus() -> int {
    0x800_0000_0000_0011_0000_0000_0000_0000_0000_0000_0000_0000_0000_0000_0000_0001int
}

/// An element of the Starknet field, held as two 128-bit halves of its
/// 256-bit big-endian encoding.
#[derive(Clone, Copy, Debug, PartialEq, Eq, Structural)]
pub struct Felt {
    pub high: u128,
    pub low: u128,
}

/// The zero element.
pub open spec fn felt_zero() -> Felt {
    Felt { high: 0, low: 0 }
}

/// The element whose value is the given 128-bit integer.
pub open spec fn felt_of_u128(v: u128) -> Felt {
    Felt { high: 0, low: v }
}

/// The element whose value is the given 64-bit integer.
pub open spec fn felt_of_u64(v: u64) -> Felt {
    felt_of_u128(v as u128)
}

impl Felt {
    /// The integer this element encodes.
    pub open spec fn value(self) -> int {
        self.high * half_base() + self.low
    }

    /// The encoding is that of a field element (below the prime).
    pub open spec fn is_canonical(self) -> bool {
        self.value() < field_modulus()
    }

    /// The zero element.
    pub fn zero() -> (r: Felt)
        ensures
            r == felt_zero(),
            r.value() == 0,
            r.is_canonical(),
    {
        Felt { high: 0, low: 0 }
    }

    /// Whether this is the zero element.
    pub fn is_zero(&self) -> (b: bool)
        ensures
            b == (self.value() == 0),
    {
        self.high == 0 && self.low == 0
    }
}

impl From<u64> for Felt {
    fn from(v: u64) -> (r: Felt)
        ensures
            r == felt_of_u64(v),
            r.value() == v,
            r.is_canonical(),
    {
        Felt { high: 0, low: v as u128 }
    }
}

impl vstd::std_specs::convert::FromSpecImpl<u64> for Felt {
    open spec fn obeys_from_spec() -> bool {
        true
    }

    open spec fn from_spec(v: u64) -> Felt {
        felt_of_u64(v)
    }
}

impl From<u128> for Felt {
    fn from(v: u128) -> (r: Felt)
        ensures
            r == felt_of_u128(v),
            r.value() == v,
            r.is_canonical(),
    {
        Felt { high: 0, low: v }
    }
}

impl vstd::std_specs::convert::FromSpecImpl<u128> for Felt {
    open spec fn obeys_from_spec() -> bool {
        true
    }

    open spec fn from_spec(v: u128) -> Felt {
        felt_of_u128(v)
    }
}

} // verus!
