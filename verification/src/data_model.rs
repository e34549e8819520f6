//! The C data model: the widths a platform assigns to the C primitive
//! types, keyed by the conventional data-model names (ILP32, LP64, ...).

use vstd::prelude::*;

verus! {

/// The size of a C type, as a bit width together with the width of a byte.
#[derive(Copy, Clone, Debug, PartialEq, Eq, Hash)]
pub struct Size {
    /// The size in bits of this type.
    bits: u8,
    /// The number of bits in a byte.
    char_bit: u8,
}

impl Size {
    /// Every `Size` this crate hands out has 8-bit bytes and a bit width
    /// that is a whole number of bytes, so `bytes` cannot fail.
    #[verifier::type_invariant]
    spec fn wf(self) -> bool {
        self.char_bit == 8 && self.bits % 8 == 0
    }

    /// The bit width, for use in specifications.
    pub closed spec fn spec_bits(self) -> u8 {
        self.bits
    }

    /// Return the number of bits this `Size` represents.
    pub fn bits(self) -> (r: u8)
        ensures
            r == self.spec_bits(),
    {
        self.bits
    }

    /// Return the number of bytes in a size.
    ///
    /// The bit width is maintained as an exact multiple of the bits in a
    /// byte, so the division below is exact.
    pub fn bytes(self) -> (r: u8)
        ensures
            r as int * 8 == self.spec_bits() as int,
    {
        proof {
            use_type_invariant(self);
        }
        self.bits / self.char_bit
    }

    /// Create a new `Size`, assuming that a byte is 8 bits.
    fn with_bits(bits: u8) -> (r: Self)
        requires
            bits % 8 == 0,
        ensures
            r.spec_bits() == bits,
    {
        Self { bits, char_bit: 8 }
    }
}

/// The C data model used on a target.
#[derive(Copy, Clone, Debug, PartialEq, Eq, Hash)]
#[non_exhaustive]
pub enum CDataModel {
    /// The data model used most commonly on Win16.
    LP32,
    /// The data model used most commonly on Win32 and 32-bit Unix systems.
    ILP32,
    /// The data model used most commonly on Win64.
    LLP64,
    /// The data model used most commonly on 64-bit Unix systems.
    LP64,
    /// A rare data model used on early 64-bit Unix systems.
    ILP64,
}

impl CDataModel {
    /// The width in bits of a pointer, in the default address space.
    pub open spec fn spec_pointer_width(self) -> u8 {
        match self {
            CDataModel::LP32 | CDataModel::ILP32 => 32,
            CDataModel::LLP64 | CDataModel::LP64 | CDataModel::ILP64 => 64,
        }
    }

    /// The width in bits of a C `short`.
    pub open spec fn spec_short_size(self) -> u8 {
        16
    }

    /// The width in bits of a C `int`.
    pub open spec fn spec_int_size(self) -> u8 {
        match self {
            CDataModel::LP32 => 16,
            CDataModel::ILP32 | CDataModel::LLP64 | CDataModel::LP64 | CDataModel::ILP64 => 32,
        }
    }

    /// The width in bits of a C `long`.
    pub open spec fn spec_long_size(self) -> u8 {
        match self {
            CDataModel::LP32 | CDataModel::ILP32 | CDataModel::LLP64 | CDataModel::ILP64 => 32,
            CDataModel::LP64 => 64,
        }
    }

    /// The width in bits of a C `long long`.
    pub open spec fn spec_long_long_size(self) -> u8 {
        64
    }

    /// The width in bits of a C `float`.
    pub open spec fn spec_float_size(self) -> u8 {
        32
    }

    /// The width in bits of a C `double`.
    pub open spec fn spec_double_size(self) -> u8 {
        64
    }

    /// The width of a pointer (in the default address space).
    pub fn pointer_width(&self) -> (r: Size)
        ensures
            r.spec_bits() == self.spec_pointer_width(),
    {
        match self {
            CDataModel::LP32 | CDataModel::ILP32 => Size::with_bits(32),
            CDataModel::LLP64 | CDataModel::LP64 | CDataModel::ILP64 => Size::with_bits(64),
        }
    }

    /// The size of a C `short`. This is required to be at least 16 bits.
    pub fn short_size(&self) -> (r: Size)
        ensures
            r.spec_bits() == self.spec_short_size(),
    {
        Size::with_bits(16)
    }

    /// The size of a C `int`. This is required to be at least 16 bits.
    pub fn int_size(&self) -> (r: Size)
        ensures
            r.spec_bits() == self.spec_int_size(),
    {
        match self {
            CDataModel::LP32 => Size::with_bits(16),
            CDataModel::ILP32 | CDataModel::LLP64 | CDataModel::LP64 | CDataModel::ILP64 => Size::with_bits(
                32,
            ),
        }
    }

    /// The size of a C `long`. This is required to be at least 32 bits.
    pub fn long_size(&self) -> (r: Size)
        ensures
            r.spec_bits() == self.spec_long_size(),
    {
        match self {
            CDataModel::LP32 | CDataModel::ILP32 | CDataModel::LLP64 | CDataModel::ILP64 => Size::with_bits(
                32,
            ),
            CDataModel::LP64 => Size::with_bits(64),
        }
    }

    /// The size of a C `long long`. This is required (in C99+) to be at least 64 bits.
    pub fn long_long_size(&self) -> (r: Size)
        ensures
            r.spec_bits() == self.spec_long_long_size(),
    {
        Size::with_bits(64)
    }

    /// The size of a C `float`.
    pub fn float_size(&self) -> (r: Size)
        ensures
            r.spec_bits() == self.spec_float_size(),
    {
        Size::with_bits(32)
    }

    /// The size of a C `double`.
    pub fn double_size(&self) -> (r: Size)
        ensures
            r.spec_bits() == self.spec_double_size(),
    {
        Size::with_bits(64)
    }
}

} // verus!
