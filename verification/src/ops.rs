use vstd::prelude::*;

use crate::vector::{as_signed, Vector16x8};
use vstd::arithmetic::div_mod::lemma_small_mod;

verus! {

/// One result lane of packed absolute value: `|v|` stored as an unsigned
/// byte. For `v == -128` the magnitude does not fit in 8 bits and the lane
/// wraps to 128, that is `(-v) mod 256`.
pub open spec fn abs_lane(v: i8) -> u8 {
    if v >= 0 {
        v as u8
    } else {
        ((0 - v) % 256) as u8
    }
}

/// All 16 result lanes of packed absolute value, from the unsigned reading
/// `s` of the argument's lanes.
pub open spec fn spec_abs_epi8(s: Seq<u8>) -> Seq<u8> {
    Seq::new(16, |i: int| abs_lane(as_signed(s[i])))
}

/// One result lane of the byte shuffle, from the source lanes `a` and the
/// control byte `c`: zero when the high bit of `c` is set, else the source
/// lane that the low four bits of `c` select.
pub open spec fn shuffle_lane(a: Seq<u8>, c: u8) -> u8 {
    if c >= 128 {
        0u8
    } else {
        a[(c as int) % 16]
    }
}

/// All 16 result lanes of the byte shuffle, from the source lanes `a` and
/// the control lanes `b`.
pub open spec fn spec_shuffle_epi8(a: Seq<u8>, b: Seq<u8>) -> Seq<u8> {
    Seq::new(16, |i: int| shuffle_lane(a, b[i]))
}

/// Computes the absolute value of each of the 16 signed byte lanes of `a`,
/// read back as unsigned bytes; the lane value -128 wraps to the byte 128.
pub fn _mm_abs_epi8(a: Vector16x8) -> (r: Vector16x8)
    ensures
        r@ == spec_abs_epi8(a@),
{
    let mut lanes: Vec<u8> = Vec::new();
    let mut j: usize = 0;
    while j < 16
        invariant
            j <= 16,
            lanes@.len() == j,
            forall|i: int| 0 <= i < j ==> lanes@[i] == abs_lane(as_signed(a@[i])),
        decreases 16 - j,
    {
        let b: u8 = a.extract(j);
        let out: u8 = if b < 128 {
            b
        } else {
            255 - b + 1
        };
        proof {
            if b >= 128 {
                lemma_small_mod((256 - b) as nat, 256nat);
            }
        }
        lanes.push(out);
        j = j + 1;
    }
    let r = Vector16x8::from_lanes(lanes);
    proof {
        assert(r@ =~= spec_abs_epi8(a@));
    }
    r
}

/// Shuffles the bytes of `a` under the control of `b`: for each lane, a
/// control byte with its high bit set gives zero, and any other control byte
/// selects the lane of `a` named by its value modulo 16.
pub fn _mm_shuffle_epi8(a: Vector16x8, b: Vector16x8) -> (r: Vector16x8)
    ensures
        r@ == spec_shuffle_epi8(a@, b@),
{
    let mut lanes: Vec<u8> = Vec::new();
    let mut j: usize = 0;
    while j < 16
        invariant
            j <= 16,
            lanes@.len() == j,
            forall|i: int| 0 <= i < j ==> lanes@[i] == shuffle_lane(a@, b@[i]),
        decreases 16 - j,
    {
        let c: u8 = b.extract(j);
        let out: u8 = if c >= 128 {
            0
        } else {
            a.extract((c % 16) as usize)
        };
        lanes.push(out);
        j = j + 1;
    }
    let r = Vector16x8::from_lanes(lanes);
    proof {
        assert(r@ =~= spec_shuffle_epi8(a@, b@));
    }
    r
}

/// The magnitude law behind packed absolute value: for every signed byte
/// other than -128, the result lane holds exactly the absolute value.
pub proof fn lemma_abs_lane_exact(v: i8)
    requires
        v != -128,
    ensures
        abs_lane(v) == vstd::math::abs(v as int),
{
    if v < 0 {
        lemma_small_mod((0 - v) as nat, 256nat);
    }
}

/// Law: on a vector whose every lane holds the signed value `v`, with
/// `v != -128`, packed absolute value leaves `|v|` in every lane.
pub proof fn lemma_abs_uniform_lanes(s: Seq<u8>, v: i8)
    requires
        s.len() == 16,
        v != -128,
        forall|i: int| 0 <= i < 16 ==> as_signed(s[i]) == v,
    ensures
        forall|i: int| 0 <= i < 16 ==> spec_abs_epi8(s)[i] == vstd::math::abs(v as int),
{
    lemma_abs_lane_exact(v);
}

/// Law: a control byte with its high bit set (128 or above) zeroes its
/// result lane, whatever the source vector holds.
pub proof fn lemma_shuffle_zeroes_high_bit(a: Seq<u8>, b: Seq<u8>, i: int)
    requires
        b.len() == 16,
        0 <= i < 16,
        b[i] >= 128,
    ensures
        spec_shuffle_epi8(a, b)[i] == 0,
{
}

/// Law: a control byte below 16 selects that source lane directly.
pub proof fn lemma_shuffle_selects_directly(a: Seq<u8>, b: Seq<u8>, i: int)
    requires
        a.len() == 16,
        b.len() == 16,
        0 <= i < 16,
        b[i] < 16,
    ensures
        spec_shuffle_epi8(a, b)[i] == a[b[i] as int],
{
    lemma_small_mod(b[i] as nat, 16nat);
}

/// Law: a control byte in 16..=127 wraps modulo 16; bits 4 to 6 carry no
/// meaning of their own for addressing.
pub proof fn lemma_shuffle_index_wraps(a: Seq<u8>, b: Seq<u8>, i: int)
    requires
        a.len() == 16,
        b.len() == 16,
        0 <= i < 16,
        16 <= b[i] < 128,
    ensures
        spec_shuffle_epi8(a, b)[i] == a[(b[i] as int) % 16],
{
}

} // verus!
