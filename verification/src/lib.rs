//! Conversion traits for conversions between `usize` and fixed-width
//! unsigned integers.
//!
//! The crate provides two traits, [`UsizeFrom`] and [`UsizeInto`], used like
//! the `From` and `Into` traits of the standard library. `UsizeFrom` is the
//! forward capability and carries every implementation; `UsizeInto` is
//! derived from it by a single blanket implementation and is never
//! implemented directly, so both directions of a pair always agree.
//!
//! Which fixed-width types are paired with `usize` depends on the build
//! target's pointer width. The implementations here are those of the 64-bit
//! branch, whose peers are `u64`, `u32`, `u16` and `u8`; every contract is
//! nevertheless stated against the size type's actual width, so what each
//! conversion returns is pinned down exactly on any build. The table of
//! peers for every supported pointer width lives in [`matrix`], together
//! with the numeric model the contracts below are stated in.
//!
//! Every conversion is a plain numeric cast: a widening cast keeps the
//! value, a narrowing cast silently keeps only the low-order bits. Each
//! implementation's contract states that outcome exactly, as a reduction of
//! the value modulo a power of two.

use vstd::prelude::*;

pub mod matrix;

verus! {

use vstd::arithmetic::power2::pow2;
use vstd::arithmetic::power2::lemma2_to64;
use vstd::arithmetic::div_mod::lemma_small_mod;
use vstd::layout::unsigned_int_max_values;
use crate::matrix::truncate_bits;
use crate::matrix::size_bits;

/// Additional `from` conversions for `usize`.
///
/// An implementation `impl UsizeFrom<S> for T` is the forward capability
/// "a `T` can be constructed from an `S`". Exactly one of `S`, `T` is
/// `usize`; the other is a fixed-width peer of the active pointer width.
pub trait UsizeFrom<T>: Sized {
    /// The value that the conversion produces.
    spec fn from_spec(value: T) -> Self;

    /// Performs the conversion.
    fn from(value: T) -> (result: Self)
        ensures
            result == Self::from_spec(value),
    ;
}

/// Additional `into` conversions for `usize`.
///
/// This is the reverse capability: it has no implementation of its own
/// beyond the single blanket one, which delegates to [`UsizeFrom`], so for
/// any pair of types both capabilities denote the same conversion.
pub trait UsizeInto<T>: Sized {
    /// The value that the conversion produces.
    spec fn into_spec(self) -> T;

    /// Performs the conversion.
    fn into(self) -> (result: T)
        ensures
            result == self.into_spec(),
    ;
}

impl<T, U> UsizeInto<T> for U where T: UsizeFrom<U> {
    open spec fn into_spec(self) -> T {
        T::from_spec(self)
    }

    fn into(self) -> (result: T) {
        T::from(self)
    }
}

/// A value no greater than `usize::MAX` is untouched by a reduction to the
/// width of the size type.
proof fn lemma_size_type_keeps(value: nat)
    requires
        value <= usize::MAX,
    ensures
        truncate_bits(size_bits(), value) == value,
{
    unsigned_int_max_values();
    lemma_small_mod(value, pow2(size_bits()));
}

/// Consistency law: for any pair of types with a forward conversion, the
/// derived reverse conversion denotes exactly the same conversion, for
/// every input value.
pub proof fn lemma_into_agrees_with_from<T, U>(value: U) where T: UsizeFrom<U>
    ensures
        UsizeInto::<T>::into_spec(value) == T::from_spec(value),
{
}

/// Round-trip law through the 8-bit peer: a size-type value within `u8`'s
/// range is unchanged by converting it to `u8` and back.
pub proof fn lemma_round_trip_u8(value: usize)
    requires
        value <= u8::MAX,
    ensures
        <usize as UsizeFrom<u8>>::from_spec(<u8 as UsizeFrom<usize>>::from_spec(value)) == value,
{
    lemma2_to64();
    lemma_small_mod(value as nat, pow2(8));
    lemma_size_type_keeps(value as nat);
}

/// Round-trip law through the 16-bit peer: a size-type value within
/// `u16`'s range is unchanged by converting it to `u16` and back.
pub proof fn lemma_round_trip_u16(value: usize)
    requires
        value <= u16::MAX,
    ensures
        <usize as UsizeFrom<u16>>::from_spec(<u16 as UsizeFrom<usize>>::from_spec(value))
            == value,
{
    lemma2_to64();
    lemma_small_mod(value as nat, pow2(16));
    lemma_size_type_keeps(value as nat);
}

/// Round-trip law through the 32-bit peer: a size-type value within
/// `u32`'s range is unchanged by converting it to `u32` and back.
pub proof fn lemma_round_trip_u32(value: usize)
    requires
        value <= u32::MAX,
    ensures
        <usize as UsizeFrom<u32>>::from_spec(<u32 as UsizeFrom<usize>>::from_spec(value))
            == value,
{
    lemma2_to64();
    lemma_small_mod(value as nat, pow2(32));
    lemma_size_type_keeps(value as nat);
}

/// Round-trip law through the 64-bit peer: every size-type value fits
/// `u64`'s range, so it is unchanged by converting it to `u64` and back.
pub proof fn lemma_round_trip_u64(value: usize)
    ensures
        <usize as UsizeFrom<u64>>::from_spec(<u64 as UsizeFrom<usize>>::from_spec(value))
            == value,
{
    lemma2_to64();
    unsigned_int_max_values();
    lemma_small_mod(value as nat, pow2(64));
    lemma_size_type_keeps(value as nat);
}

/// Truncation law for the 8-bit peer: converting any size-type value into
/// `u8` keeps exactly its low-order eight bits, the value modulo 2^8.
pub proof fn lemma_truncate_u8(value: usize)
    ensures
        <u8 as UsizeFrom<usize>>::from_spec(value) == value as nat % 0x100,
{
    lemma2_to64();
}

/// Truncation law for the 16-bit peer: converting any size-type value into
/// `u16` keeps exactly its low-order sixteen bits, the value modulo 2^16.
pub proof fn lemma_truncate_u16(value: usize)
    ensures
        <u16 as UsizeFrom<usize>>::from_spec(value) == value as nat % 0x1_0000,
{
    lemma2_to64();
}

/// Truncation law for the 32-bit peer: converting any size-type value into
/// `u32` keeps exactly its low-order thirty-two bits, the value modulo
/// 2^32.
pub proof fn lemma_truncate_u32(value: usize)
    ensures
        <u32 as UsizeFrom<usize>>::from_spec(value) == value as nat % 0x1_0000_0000,
{
    lemma2_to64();
}

impl UsizeFrom<usize> for u8 {
    open spec fn from_spec(value: usize) -> u8 {
        truncate_bits(8, value as nat) as u8
    }

    fn from(value: usize) -> (result: u8) {
        proof {
            lemma2_to64();
            assert(value as u8 == (value % 0x100) as u8) by (bit_vector);
        }
        #[verifier::truncate] (value as u8)
    }
}

impl UsizeFrom<u8> for usize {
    open spec fn from_spec(value: u8) -> usize {
        truncate_bits(size_bits(), value as nat) as usize
    }

    fn from(value: u8) -> (result: usize) {
        proof {
            lemma_size_type_keeps(value as nat);
        }
        value as usize
    }
}

impl UsizeFrom<usize> for u16 {
    open spec fn from_spec(value: usize) -> u16 {
        truncate_bits(16, value as nat) as u16
    }

    fn from(value: usize) -> (result: u16) {
        proof {
            lemma2_to64();
            assert(value as u16 == (value % 0x1_0000) as u16) by (bit_vector);
        }
        #[verifier::truncate] (value as u16)
    }
}

impl UsizeFrom<u16> for usize {
    open spec fn from_spec(value: u16) -> usize {
        truncate_bits(size_bits(), value as nat) as usize
    }

    fn from(value: u16) -> (result: usize) {
        proof {
            lemma_size_type_keeps(value as nat);
        }
        value as usize
    }
}

impl UsizeFrom<usize> for u32 {
    open spec fn from_spec(value: usize) -> u32 {
        truncate_bits(32, value as nat) as u32
    }

    fn from(value: usize) -> (result: u32) {
        proof {
            lemma2_to64();
            assert(value as u32 == (value as int % 0x1_0000_0000int) as u32) by (bit_vector);
        }
        #[verifier::truncate] (value as u32)
    }
}

impl UsizeFrom<u32> for usize {
    open spec fn from_spec(value: u32) -> usize {
        truncate_bits(size_bits(), value as nat) as usize
    }

    fn from(value: u32) -> (result: usize) {
        proof {
            lemma_size_type_keeps(value as nat);
        }
        value as usize
    }
}

impl UsizeFrom<usize> for u64 {
    open spec fn from_spec(value: usize) -> u64 {
        truncate_bits(64, value as nat) as u64
    }

    fn from(value: usize) -> (result: u64) {
        proof {
            lemma2_to64();
            lemma_small_mod(value as nat, pow2(64));
        }
        value as u64
    }
}

impl UsizeFrom<u64> for usize {
    open spec fn from_spec(value: u64) -> usize {
        truncate_bits(size_bits(), value as nat) as usize
    }

    fn from(value: u64) -> (result: usize) {
        proof {
            lemma2_to64();
            unsigned_int_max_values();
            if usize::BITS == 64 {
                lemma_small_mod(value as nat, pow2(64));
            } else {
                assert(usize::BITS == 32);
                assert(value as usize == (value as int % 0x1_0000_0000int) as usize) by (bit_vector)
                    requires
                        usize::BITS == 32,
                ;
            }
        }
        #[verifier::truncate] (value as usize)
    }
}

} // verus!
