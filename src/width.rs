//! Selection of the integer width that backs a generated flag set.
use vstd::prelude::*;

verus! {

/// The largest number of variants a flag set can hold.
pub const MAX_VARIANTS: usize = 128;

/// A standard unsigned integer width.
#[derive(Clone, Copy, Debug, PartialEq, Eq, Structural)]
pub enum FlagWidth {
    U8,
    U16,
    U32,
    U64,
    U128,
}

impl FlagWidth {
    /// Number of bits of the width.
    pub open spec fn spec_bits(self) -> nat {
        match self {
            FlagWidth::U8 => 8,
            FlagWidth::U16 => 16,
            FlagWidth::U32 => 32,
            FlagWidth::U64 => 64,
            FlagWidth::U128 => 128,
        }
    }

    /// Name of the Rust integer type of the width.
    pub open spec fn spec_int_name(self) -> Seq<char> {
        match self {
            FlagWidth::U8 => "u8"@,
            FlagWidth::U16 => "u16"@,
            FlagWidth::U32 => "u32"@,
            FlagWidth::U64 => "u64"@,
            FlagWidth::U128 => "u128"@,
        }
    }

    pub fn bits(&self) -> (r: u32)
        ensures
            r as nat == self.spec_bits(),
    {
        match self {
            FlagWidth::U8 => 8,
            FlagWidth::U16 => 16,
            FlagWidth::U32 => 32,
            FlagWidth::U64 => 64,
            FlagWidth::U128 => 128,
        }
    }

    pub fn int_name(&self) -> (r: &'static str)
        ensures
            r@ == self.spec_int_name(),
    {
        match self {
            FlagWidth::U8 => "u8",
            FlagWidth::U16 => "u16",
            FlagWidth::U32 => "u32",
            FlagWidth::U64 => "u64",
            FlagWidth::U128 => "u128",
        }
    }
}

/// The narrowest width whose bit count covers `n` variants; none beyond 128.
pub open spec fn spec_width_for(n: nat) -> Option<FlagWidth> {
    if n <= 8 {
        Some(FlagWidth::U8)
    } else if n <= 16 {
        Some(FlagWidth::U16)
    } else if n <= 32 {
        Some(FlagWidth::U32)
    } else if n <= 64 {
        Some(FlagWidth::U64)
    } else if n <= 128 {
        Some(FlagWidth::U128)
    } else {
        None
    }
}

/// Picks the width of a flag set for `n` variants.
pub fn width_for(n: usize) -> (r: Option<FlagWidth>)
    ensures
        r == spec_width_for(n as nat),
        r.is_none() <==> n > MAX_VARIANTS,
{
    if n <= 8 {
        Some(FlagWidth::U8)
    } else if n <= 16 {
        Some(FlagWidth::U16)
    } else if n <= 32 {
        Some(FlagWidth::U32)
    } else if n <= 64 {
        Some(FlagWidth::U64)
    } else if n <= MAX_VARIANTS {
        Some(FlagWidth::U128)
    } else {
        None
    }
}

/// The chosen width is the narrowest standard width with at least `n` bits:
/// it covers `n`, and every width that covers `n` is at least as wide.
pub proof fn lemma_width_is_narrowest(n: nat, other: FlagWidth)
    requires
        n <= 128,
        n <= other.spec_bits(),
    ensures
        spec_width_for(n) is Some,
        n <= spec_width_for(n)->0.spec_bits(),
        spec_width_for(n)->0.spec_bits() <= other.spec_bits(),
{
}

} // verus!
