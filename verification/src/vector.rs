use vstd::prelude::*;

verus! {

/// The two's-complement reading of one lane: bytes below 128 are the
/// nonnegative values, bytes from 128 up stand for the negatives.
pub open spec fn as_signed(b: u8) -> i8 {
    if b < 128 {
        b as i8
    } else {
        (b - 256) as i8
    }
}

/// The byte that holds a signed lane value: the same bits read unsigned.
pub open spec fn as_unsigned(v: i8) -> u8 {
    if v >= 0 {
        v as u8
    } else {
        (v + 256) as u8
    }
}

/// The two lane readings are reinterpretations of one bit pattern: reading a
/// byte as signed and storing it back changes nothing.
pub proof fn lemma_unsigned_signed_roundtrip(b: u8)
    ensures
        as_unsigned(as_signed(b)) == b,
{
}

/// The two lane readings are reinterpretations of one bit pattern: storing a
/// signed value and reading it back changes nothing.
pub proof fn lemma_signed_unsigned_roundtrip(v: i8)
    ensures
        as_signed(as_unsigned(v)) == v,
{
}

/// One 128-bit vector value: 16 lanes of one byte each, addressed 0..15 with
/// lane 0 the least significant. The view is the unsigned reading of the
/// lanes; `as_signed` gives the signed reading of the same bits.
#[derive(Debug, PartialEq, Eq)]
pub struct Vector16x8 {
    lanes: Vec<u8>,
}

impl View for Vector16x8 {
    type V = Seq<u8>;

    closed spec fn view(&self) -> Seq<u8> {
        self.lanes@
    }
}

impl Vector16x8 {
    #[verifier::type_invariant]
    spec fn sixteen_lanes(self) -> bool {
        self.lanes@.len() == 16
    }

    /// Builds a vector from its 16 lanes, lane 0 first.
    pub fn from_lanes(lanes: Vec<u8>) -> (r: Self)
        requires
            lanes@.len() == 16,
        ensures
            r@ == lanes@,
    {
        Vector16x8 { lanes }
    }

    /// Builds a vector lane by lane, lane 0 first.
    pub fn new(
        e0: u8, e1: u8, e2: u8, e3: u8, e4: u8, e5: u8, e6: u8, e7: u8,
        e8: u8, e9: u8, e10: u8, e11: u8, e12: u8, e13: u8, e14: u8, e15: u8,
    ) -> (r: Self)
        ensures
            r@ == seq![e0, e1, e2, e3, e4, e5, e6, e7, e8, e9, e10, e11, e12, e13, e14, e15],
    {
        let mut lanes: Vec<u8> = Vec::new();
        lanes.push(e0);
        lanes.push(e1);
        lanes.push(e2);
        lanes.push(e3);
        lanes.push(e4);
        lanes.push(e5);
        lanes.push(e6);
        lanes.push(e7);
        lanes.push(e8);
        lanes.push(e9);
        lanes.push(e10);
        lanes.push(e11);
        lanes.push(e12);
        lanes.push(e13);
        lanes.push(e14);
        lanes.push(e15);
        proof {
            assert(lanes@ =~= seq![
                e0, e1, e2, e3, e4, e5, e6, e7, e8, e9, e10, e11, e12, e13, e14, e15,
            ]);
        }
        Vector16x8 { lanes }
    }

    /// Builds a vector with the same byte in every lane.
    pub fn splat(b: u8) -> (r: Self)
        ensures
            r@.len() == 16,
            forall|i: int| 0 <= i < 16 ==> r@[i] == b,
    {
        let mut lanes: Vec<u8> = Vec::new();
        let mut j: usize = 0;
        while j < 16
            invariant
                j <= 16,
                lanes@.len() == j,
                forall|i: int| 0 <= i < j ==> lanes@[i] == b,
            decreases 16 - j,
        {
            lanes.push(b);
            j = j + 1;
        }
        Vector16x8 { lanes }
    }

    /// Builds a vector with the same signed value in every lane.
    pub fn splat_signed(v: i8) -> (r: Self)
        ensures
            r@.len() == 16,
            forall|i: int| 0 <= i < 16 ==> r@[i] == as_unsigned(v),
    {
        let b: u8 = if v >= 0 {
            v as u8
        } else {
            ((v as i16) + 256) as u8
        };
        Self::splat(b)
    }

    /// Reads lane `i` as an unsigned byte.
    pub fn extract(&self, i: usize) -> (r: u8)
        requires
            i < 16,
        ensures
            r == self@[i as int],
    {
        proof {
            use_type_invariant(self);
        }
        self.lanes[i]
    }

    /// Reads lane `i` as a signed byte: the same bits, reinterpreted.
    pub fn extract_signed(&self, i: usize) -> (r: i8)
        requires
            i < 16,
        ensures
            r == as_signed(self@[i as int]),
    {
        let b: u8 = self.extract(i);
        if b < 128 {
            b as i8
        } else {
            ((b as i16) - 256) as i8
        }
    }
}

} // verus!
