//! The width-selection matrix: which conversion pairs exist for each
//! supported pointer width, and the numeric model of a single conversion.
//!
//! A build target has one pointer width, drawn from the five supported
//! widths of [`PointerWidth`]. Its branch of the matrix pairs the size type
//! bidirectionally with every supported fixed-width type that is no wider
//! than the pointer width — see [`registered`] — and with nothing else.
//! [`registration_table`] lists a branch's pairs, each exactly once.
//!
//! Each registered conversion reduces its argument modulo a power of two,
//! [`truncate_bits`]; the laws that hold of every branch — the round-trip
//! law for values in range and the symmetry of registration — are proved
//! here over that model, for all five widths at once.

use vstd::prelude::*;

verus! {

use vstd::arithmetic::power2::pow2;
use vstd::arithmetic::power2::lemma_pow2_pos;
use vstd::arithmetic::power2::lemma_pow2_strictly_increases;
use vstd::arithmetic::div_mod::lemma_small_mod;

/// The value produced by an unchecked cast of `value` into an unsigned
/// integer type of `bits` bits: the low-order `bits` bits of `value`.
/// A widening or same-width cast keeps the value; a narrowing cast
/// truncates, exactly as the platform's integer-narrowing semantics do.
pub open spec fn truncate_bits(bits: nat, value: nat) -> nat {
    value % pow2(bits)
}

/// The bit width of the size type, which equals the build target's pointer
/// width. Verus considers both pointer widths it supports, so everything
/// proved about this crate holds for each of them.
pub open spec fn size_bits() -> nat {
    usize::BITS as nat
}

/// The pointer widths for which the matrix has a branch.
#[derive(Clone, Copy, Debug, PartialEq, Eq, Structural)]
pub enum PointerWidth {
    /// 8-bit pointers.
    W8,
    /// 16-bit pointers.
    W16,
    /// 32-bit pointers.
    W32,
    /// 64-bit pointers.
    W64,
    /// 128-bit pointers.
    W128,
}

/// One endpoint of a conversion pair: the size type itself, or the
/// fixed-width unsigned integer type of the given number of bits.
#[derive(Clone, Copy, Debug, PartialEq, Eq, Structural)]
pub enum ConvType {
    /// The platform-native unsigned integer type.
    SizeType,
    /// The fixed-width unsigned integer type of the given number of bits.
    Fixed(u32),
}

/// The number of bits of a pointer width.
pub open spec fn width_bits(w: PointerWidth) -> nat {
    match w {
        PointerWidth::W8 => 8,
        PointerWidth::W16 => 16,
        PointerWidth::W32 => 32,
        PointerWidth::W64 => 64,
        PointerWidth::W128 => 128,
    }
}

/// Whether the fixed-width type of `bits` bits is a conversion peer of the
/// size type under pointer width `w`: a supported width, no wider than the
/// pointer width itself.
pub open spec fn is_peer_bits(w: PointerWidth, bits: u32) -> bool {
    &&& (bits == 8 || bits == 16 || bits == 32 || bits == 64 || bits == 128)
    &&& bits <= width_bits(w)
}

/// The matrix itself: whether the branch for pointer width `w` registers a
/// forward conversion from `source` to `target`. The size type is paired
/// bidirectionally with each of its peers, and no other pair exists.
pub open spec fn registered(w: PointerWidth, source: ConvType, target: ConvType) -> bool {
    match (source, target) {
        (ConvType::SizeType, ConvType::Fixed(bits)) => is_peer_bits(w, bits),
        (ConvType::Fixed(bits), ConvType::SizeType) => is_peer_bits(w, bits),
        _ => false,
    }
}

/// The fixed width occurring in a registered pair; irrelevant elsewhere.
spec fn pair_fixed_bits(source: ConvType, target: ConvType) -> u32 {
    match (source, target) {
        (ConvType::SizeType, ConvType::Fixed(bits)) => bits,
        (ConvType::Fixed(bits), ConvType::SizeType) => bits,
        _ => 0,
    }
}

impl PointerWidth {
    /// The number of bits of this pointer width.
    pub fn bits(self) -> (bits: u32)
        ensures
            bits == width_bits(self),
    {
        match self {
            PointerWidth::W8 => 8,
            PointerWidth::W16 => 16,
            PointerWidth::W32 => 32,
            PointerWidth::W64 => 64,
            PointerWidth::W128 => 128,
        }
    }
}

/// The pointer width of the running build, recognized from the size type's
/// bit width.
pub fn active_pointer_width() -> (w: PointerWidth)
    ensures
        width_bits(w) == size_bits(),
{
    if usize::BITS == 32 {
        PointerWidth::W32
    } else {
        PointerWidth::W64
    }
}

/// Holds when `pairs` lists exactly the conversion pairs that the branch
/// for pointer width `w` registers among those whose fixed width is below
/// `bound`: the part of the branch a registration pass has built so far.
spec fn row_upto(w: PointerWidth, pairs: Seq<(ConvType, ConvType)>, bound: int) -> bool {
    forall|source: ConvType, target: ConvType| #![trigger pairs.contains((source, target))]
        pairs.contains((source, target)) <==> (registered(w, source, target)
            && pair_fixed_bits(source, target) < bound)
}

/// Holds when `pairs` lists exactly the conversion pairs that the branch
/// for pointer width `w` registers.
pub open spec fn lists_registered_pairs(w: PointerWidth, pairs: Seq<(ConvType, ConvType)>) -> bool {
    forall|source: ConvType, target: ConvType| #![trigger pairs.contains((source, target))]
        pairs.contains((source, target)) <==> registered(w, source, target)
}

/// The conversion pairs that the branch for pointer width `w` registers:
/// exactly the pairs of [`registered`], each exactly once.
pub fn registration_table(w: PointerWidth) -> (pairs: Vec<(ConvType, ConvType)>)
    ensures
        lists_registered_pairs(w, pairs@),
        pairs@.no_duplicates(),
{
    let wbits: u32 = w.bits();
    let mut pairs: Vec<(ConvType, ConvType)> = Vec::new();
    let mut bits: u32 = 8;
    proof {
        assert forall|source: ConvType, target: ConvType| #![trigger pairs@.contains((source, target))]
            pairs@.contains((source, target)) <==> (registered(w, source, target)
                && pair_fixed_bits(source, target) < 8) by {
            if registered(w, source, target) {
                assert(is_peer_bits(w, pair_fixed_bits(source, target)));
            }
        }
        assert(row_upto(w, pairs@, 8));
    }
    while bits <= 128
        invariant
            wbits == width_bits(w),
            bits == 8 || bits == 16 || bits == 32 || bits == 64 || bits == 128 || bits == 256,
            row_upto(w, pairs@, bits as int),
            pairs@.no_duplicates(),
        decreases 256 - bits,
    {
        if bits <= wbits {
            let ghost prev = pairs@;
            let ghost pair_to = (ConvType::SizeType, ConvType::Fixed(bits));
            let ghost pair_back = (ConvType::Fixed(bits), ConvType::SizeType);
            pairs.push((ConvType::SizeType, ConvType::Fixed(bits)));
            pairs.push((ConvType::Fixed(bits), ConvType::SizeType));
            proof {
                assert(pairs@.len() == prev.len() + 2);
                assert(forall|i: int| 0 <= i < prev.len() ==> pairs@[i] == prev[i]);
                assert(pairs@[prev.len() as int] == pair_to);
                assert(pairs@[prev.len() as int + 1] == pair_back);
                assert(pair_fixed_bits(ConvType::SizeType, ConvType::Fixed(bits)) == bits);
                assert(pair_fixed_bits(ConvType::Fixed(bits), ConvType::SizeType) == bits);
                assert(registered(w, ConvType::SizeType, ConvType::Fixed(bits)));
                assert(registered(w, ConvType::Fixed(bits), ConvType::SizeType));
                assert(!prev.contains((ConvType::SizeType, ConvType::Fixed(bits))));
                assert(!prev.contains((ConvType::Fixed(bits), ConvType::SizeType)));
                assert forall|source: ConvType, target: ConvType| #![trigger pairs@.contains((source, target))]
                    pairs@.contains((source, target)) <==> (registered(w, source, target)
                        && pair_fixed_bits(source, target) < 2 * bits) by {
                    if pairs@.contains((source, target)) {
                        let i: int = choose|i: int|
                            0 <= i < pairs@.len() && pairs@[i] == (source, target);
                        if i < prev.len() {
                            assert(prev[i] == (source, target));
                            assert(prev.contains((source, target)));
                        } else if i == prev.len() {
                            assert((source, target) == pair_to);
                        } else {
                            assert((source, target) == pair_back);
                        }
                    }
                    if registered(w, source, target) && pair_fixed_bits(source, target) < 2
                        * bits {
                        if pair_fixed_bits(source, target) < bits {
                            assert(prev.contains((source, target)));
                            let i: int = choose|i: int|
                                0 <= i < prev.len() && prev[i] == (source, target);
                            assert(pairs@[i] == (source, target));
                        } else {
                            assert(pair_fixed_bits(source, target) == bits);
                            assert((source, target) == pair_to || (source, target)
                                == pair_back);
                        }
                    }
                }
                assert(row_upto(w, pairs@, 2 * bits));
                assert forall|i: int, j: int|
                    0 <= i < j < pairs@.len() implies pairs@[i] != pairs@[j] by {
                    if j < prev.len() {
                        assert(prev[i] != prev[j]);
                    } else if j == prev.len() {
                        assert(pairs@[j] == pair_to);
                        assert(pairs@[i] == prev[i]);
                    } else {
                        assert(pairs@[j] == pair_back);
                        if i < prev.len() {
                            assert(pairs@[i] == prev[i]);
                        } else {
                            assert(pairs@[i] == pair_to);
                        }
                    }
                }
                assert(pairs@.no_duplicates());
            }
        } else {
            proof {
                assert forall|source: ConvType, target: ConvType| #![trigger pairs@.contains((source, target))]
                    pairs@.contains((source, target)) <==> (registered(w, source, target)
                        && pair_fixed_bits(source, target) < 2 * bits) by {
                    if registered(w, source, target) {
                        assert(is_peer_bits(w, pair_fixed_bits(source, target)));
                        assert(pair_fixed_bits(source, target) <= wbits);
                    }
                }
                assert(row_upto(w, pairs@, 2 * bits));
            }
        }
        bits = bits * 2;
    }
    proof {
        assert forall|source: ConvType, target: ConvType| #![trigger pairs@.contains((source, target))]
            pairs@.contains((source, target)) <==> registered(w, source, target) by {
            if registered(w, source, target) {
                assert(is_peer_bits(w, pair_fixed_bits(source, target)));
                assert(pair_fixed_bits(source, target) < 256);
            }
        }
    }
    pairs
}

/// Round-trip law, for every branch of the matrix: converting a size-type
/// value into a peer and back to the size type keeps the value whenever it
/// fits the peer's range.
pub proof fn lemma_round_trip(w: PointerWidth, bits: u32, value: nat)
    requires
        is_peer_bits(w, bits),
        value < pow2(bits as nat),
    ensures
        truncate_bits(width_bits(w), truncate_bits(bits as nat, value)) == value,
{
    lemma_pow2_pos(bits as nat);
    lemma_small_mod(value, pow2(bits as nat));
    if (bits as nat) < width_bits(w) {
        lemma_pow2_strictly_increases(bits as nat, width_bits(w));
    }
    lemma_pow2_pos(width_bits(w));
    lemma_small_mod(value, pow2(width_bits(w)));
}

/// Registration is symmetric: a branch registers a pair exactly when it
/// registers the mirrored pair.
pub proof fn lemma_registered_symmetric(w: PointerWidth, source: ConvType, target: ConvType)
    ensures
        registered(w, source, target) == registered(w, target, source),
{
}

/// No branch pairs the size type with a fixed-width type wider than the
/// branch's own pointer width.
pub proof fn lemma_no_peer_wider_than_width(w: PointerWidth, bits: u32)
    requires
        is_peer_bits(w, bits),
    ensures
        bits <= width_bits(w),
{
}

/// The peers of each branch, written out: each branch registers the
/// supported widths up to its own, down to 8 bits, and omits none.
pub proof fn lemma_peers_of_each_width()
    ensures
        forall|bits: u32| #[trigger] is_peer_bits(PointerWidth::W8, bits) <==> bits == 8,
        forall|bits: u32| #[trigger] is_peer_bits(PointerWidth::W16, bits) <==> (bits == 8
            || bits == 16),
        forall|bits: u32| #[trigger] is_peer_bits(PointerWidth::W32, bits) <==> (bits == 8
            || bits == 16 || bits == 32),
        forall|bits: u32| #[trigger] is_peer_bits(PointerWidth::W64, bits) <==> (bits == 8
            || bits == 16 || bits == 32 || bits == 64),
        forall|bits: u32| #[trigger] is_peer_bits(PointerWidth::W128, bits) <==> (bits == 8
            || bits == 16 || bits == 32 || bits == 64 || bits == 128),
{
}

/// A pointer width strictly below 64 bits never registers the 64-bit type,
/// in either direction.
pub proof fn lemma_no_u64_below_w64()
    ensures
        !registered(PointerWidth::W32, ConvType::SizeType, ConvType::Fixed(64)),
        !registered(PointerWidth::W32, ConvType::Fixed(64), ConvType::SizeType),
        !registered(PointerWidth::W16, ConvType::SizeType, ConvType::Fixed(64)),
        !registered(PointerWidth::W16, ConvType::Fixed(64), ConvType::SizeType),
        !registered(PointerWidth::W8, ConvType::SizeType, ConvType::Fixed(64)),
        !registered(PointerWidth::W8, ConvType::Fixed(64), ConvType::SizeType),
{
}

} // verus!
