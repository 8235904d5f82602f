use vstd::prelude::*;

use crate::error::EndpointError;

verus! {

/// Whether bit `i` of `m` is one.
pub open spec fn bit_of(m: u128, i: u128) -> bool {
    (m >> i) & 1u128 == 1u128
}

/// A set of adapter indices in `0..128`, held as the bits of a `u128`.
#[derive(Clone, Copy, Debug, PartialEq, Eq, Structural)]
pub struct Bitmap {
    map: u128,
}

proof fn lemma_or_bit(m: u128, i: u128, j: u128)
    by (bit_vector)
    requires
        i < 128,
        j < 128,
    ensures
        ((m | (1u128 << i)) >> j) & 1u128 == (if j == i { 1u128 } else { (m >> j) & 1u128 }),
{
}

proof fn lemma_and_not_bit(m: u128, i: u128, j: u128)
    by (bit_vector)
    requires
        i < 128,
        j < 128,
    ensures
        ((m & !(1u128 << i)) >> j) & 1u128 == (if j == i { 0u128 } else { (m >> j) & 1u128 }),
{
}

proof fn lemma_test_bit(m: u128, i: u128)
    by (bit_vector)
    requires
        i < 128,
    ensures
        (m & (1u128 << i) != 0u128) == ((m >> i) & 1u128 == 1u128),
{
}

proof fn lemma_xor_bit(a: u128, b: u128, i: u128)
    by (bit_vector)
    requires
        i < 128,
        ((a >> i) & 1u128 == 1u128) == ((b >> i) & 1u128 == 1u128),
    ensures
        ((a ^ b) >> i) & 1u128 != 1u128,
{
}

proof fn lemma_xor_zero(a: u128, b: u128)
    by (bit_vector)
    requires
        a ^ b == 0u128,
    ensures
        a == b,
{
}

proof fn lemma_zero_bits(i: u128)
    by (bit_vector)
    ensures
        (0u128 >> i) & 1u128 == 0u128,
{
}

proof fn lemma_shift_step(m: u128, k: u128)
    by (bit_vector)
    requires
        k < 127,
        m >> k != 0u128,
    ensures
        (m >> k) & 1u128 == 1u128 || m >> (k + 1) != 0u128,
{
}

proof fn lemma_shift_top(m: u128)
    by (bit_vector)
    requires
        m >> 127u128 != 0u128,
    ensures
        (m >> 127u128) & 1u128 == 1u128,
{
}

proof fn lemma_shift_zero(m: u128)
    by (bit_vector)
    ensures
        m >> 0u128 == m,
{
}

/// A nonzero word has a one bit at some position at or above `k`, provided
/// that its bits from `k` on are not all zero.
proof fn lemma_nonzero_has_bit(m: u128, k: u128)
    requires
        k < 128,
        m >> k != 0u128,
    ensures
        exists|i: u128| k <= i < 128 && #[trigger] bit_of(m, i),
    decreases 128 - k,
{
    if k == 127 {
        lemma_shift_top(m);
        assert(bit_of(m, 127u128));
    } else {
        lemma_shift_step(m, k);
        if (m >> k) & 1u128 == 1u128 {
            assert(bit_of(m, k));
        } else {
            lemma_nonzero_has_bit(m, (k + 1) as u128);
        }
    }
}

/// A word is zero exactly when none of its 128 bits is one.
pub proof fn lemma_zero_iff_no_bits(m: u128)
    ensures
        (m == 0) <==> (forall|i: u128| i < 128 ==> !#[trigger] bit_of(m, i)),
{
    if m == 0 {
        assert forall|i: u128| i < 128 implies !#[trigger] bit_of(m, i) by {
            lemma_zero_bits(i);
        }
    } else {
        lemma_shift_zero(m);
        lemma_nonzero_has_bit(m, 0);
    }
}

impl Bitmap {
    /// Number of positions the bitmap holds.
    pub const BITS: u8 = 128;

    /// Whether position `index` is in the set.
    pub open spec fn is_set(self, index: int) -> bool {
        0 <= index < 128 && bit_of(self.spec_value(), index as u128)
    }

    /// The bits as one word.
    pub closed spec fn spec_value(self) -> u128 {
        self.map
    }

    /// The bitmap with no position set.
    pub closed spec fn empty() -> Bitmap {
        Bitmap { map: 0 }
    }

    /// This bitmap with position `index` (below 128) set to `value`.
    pub closed spec fn spec_with(self, index: u8, value: bool) -> Bitmap {
        if value {
            Bitmap { map: self.map | (1u128 << index) }
        } else {
            Bitmap { map: self.map & !(1u128 << index) }
        }
    }

    /// The number of positions below `n` that are in the set.
    pub open spec fn count_below(self, n: nat) -> nat
        decreases n,
    {
        if n == 0 {
            0
        } else {
            self.count_below((n - 1) as nat) + if self.is_set(n - 1) { 1nat } else { 0nat }
        }
    }

    /// The number of positions in the set.
    pub open spec fn count(self) -> nat {
        self.count_below(128)
    }

    /// The empty bitmap.
    pub fn new() -> (r: Bitmap)
        ensures
            r == Bitmap::empty(),
            r.spec_value() == 0,
            forall|i: int| !r.is_set(i),
    {
        let r = Bitmap { map: 0 };
        proof {
            assert forall|i: int| !r.is_set(i) by {
                if 0 <= i < 128 {
                    lemma_zero_bits(i as u128);
                }
            }
        }
        r
    }

    /// The bitmap whose word is `value`.
    pub fn from_value(value: u128) -> (r: Bitmap)
        ensures
            r.spec_value() == value,
    {
        Bitmap { map: value }
    }

    /// Whether position `index` is set; fails when `index` is not below 128.
    pub fn get(&self, index: u8) -> (r: Result<bool, EndpointError>)
        ensures
            index < 128 ==> r == Ok::<bool, EndpointError>(self.is_set(index as int)),
            index >= 128 ==> r == Err::<bool, EndpointError>(EndpointError::BitmapIndexOutOfBounds),
    {
        if index >= Self::BITS {
            return Err(EndpointError::BitmapIndexOutOfBounds);
        }
        proof {
            lemma_test_bit(self.map, index as u128);
        }
        Ok(self.map & (1u128 << index) != 0)
    }

    /// Puts position `index` in the set (`value` true) or takes it out
    /// (`value` false); fails, changing nothing, when `index` is not below 128.
    pub fn set(&mut self, index: u8, value: bool) -> (r: Result<(), EndpointError>)
        ensures
            index < 128 ==> {
                &&& r == Ok::<(), EndpointError>(())
                &&& *final(self) == old(self).spec_with(index, value)
                &&& final(self).is_set(index as int) == value
                &&& forall|j: int| j != index ==> final(self).is_set(j) == old(self).is_set(j)
            },
            index >= 128 ==> {
                &&& r == Err::<(), EndpointError>(EndpointError::BitmapIndexOutOfBounds)
                &&& *final(self) == *old(self)
            },
    {
        if index >= Self::BITS {
            return Err(EndpointError::BitmapIndexOutOfBounds);
        }
        proof {
            self.lemma_with(index, value);
        }
        if value {
            self.map = self.map | (1u128 << index);
        } else {
            self.map = self.map & !(1u128 << index);
        }
        Ok(())
    }

    /// Position `index` of `spec_with(index, value)` is `value`; every other
    /// position is as before.
    pub proof fn lemma_with(self, index: u8, value: bool)
        requires
            index < 128,
        ensures
            self.spec_with(index, value).is_set(index as int) == value,
            forall|j: int| j != index ==> #[trigger] self.spec_with(index, value).is_set(j)
                == self.is_set(j),
    {
        let m = self.map;
        let after = self.spec_with(index, value);
        if value {
            lemma_or_bit(m, index as u128, index as u128);
            assert forall|j: int| j != index implies #[trigger] after.is_set(j) == self.is_set(j) by {
                if 0 <= j < 128 {
                    lemma_or_bit(m, index as u128, j as u128);
                }
            }
        } else {
            lemma_and_not_bit(m, index as u128, index as u128);
            assert forall|j: int| j != index implies #[trigger] after.is_set(j) == self.is_set(j) by {
                if 0 <= j < 128 {
                    lemma_and_not_bit(m, index as u128, j as u128);
                }
            }
        }
    }

    proof fn lemma_count_below_with(self, index: u8, n: nat)
        requires
            index < 128,
            !self.is_set(index as int),
        ensures
            self.spec_with(index, true).count_below(n) == self.count_below(n) + (if index < n {
                1nat
            } else {
                0nat
            }),
        decreases n,
    {
        self.lemma_with(index, true);
        if n > 0 {
            self.lemma_count_below_with(index, (n - 1) as nat);
        }
    }

    /// Setting a position that was not set adds one to the count.
    pub proof fn lemma_count_with(self, index: u8)
        requires
            index < 128,
            !self.is_set(index as int),
        ensures
            self.spec_with(index, true).count() == self.count() + 1,
    {
        self.lemma_count_below_with(index, 128);
    }

    proof fn lemma_count_below_without(self, index: u8, n: nat)
        requires
            index < 128,
            self.is_set(index as int),
        ensures
            self.spec_with(index, false).count_below(n) + (if index < n {
                1nat
            } else {
                0nat
            }) == self.count_below(n),
        decreases n,
    {
        self.lemma_with(index, false);
        if n > 0 {
            self.lemma_count_below_without(index, (n - 1) as nat);
        }
    }

    /// Clearing a position that was set takes one off the count.
    pub proof fn lemma_count_without(self, index: u8)
        requires
            index < 128,
            self.is_set(index as int),
        ensures
            self.spec_with(index, false).count() + 1 == self.count(),
    {
        self.lemma_count_below_without(index, 128);
    }

    /// At most `n` positions below `n` are set.
    pub proof fn lemma_count_below_bound(self, n: nat)
        ensures
            self.count_below(n) <= n,
        decreases n,
    {
        if n > 0 {
            self.lemma_count_below_bound((n - 1) as nat);
        }
    }

    /// The empty bitmap counts no position.
    pub proof fn lemma_count_empty_below(n: nat)
        ensures
            Bitmap::empty().count_below(n) == 0,
        decreases n,
    {
        Bitmap::lemma_empty();
        if n > 0 {
            Bitmap::lemma_count_empty_below((n - 1) as nat);
        }
    }

    /// The empty bitmap has no position set.
    pub proof fn lemma_empty()
        ensures
            forall|i: int| !#[trigger] Bitmap::empty().is_set(i),
            Bitmap::empty().spec_value() == 0,
    {
        assert forall|i: int| !#[trigger] Bitmap::empty().is_set(i) by {
            if 0 <= i < 128 {
                lemma_zero_bits(i as u128);
            }
        }
    }

    /// Two bitmaps with the same positions set are the same bitmap.
    pub proof fn lemma_ext(a: Bitmap, b: Bitmap)
        requires
            forall|i: int| 0 <= i < 128 ==> a.is_set(i) == b.is_set(i),
        ensures
            a == b,
    {
        assert forall|i: u128| i < 128 implies #[trigger] bit_of(a.map ^ b.map, i) == false by {
            assert(a.is_set(i as int) == b.is_set(i as int));
            lemma_xor_bit(a.map, b.map, i);
        }
        lemma_zero_iff_no_bits(a.map ^ b.map);
        lemma_xor_zero(a.map, b.map);
    }

    /// The bits as one word: bit `i` of the result is one exactly when
    /// position `i` is in the set.
    pub fn as_value(&self) -> (r: u128)
        ensures
            r == self.spec_value(),
            forall|i: u128| i < 128 ==> (bit_of(r, i) <==> self.is_set(i as int)),
            (r == 0) <==> (forall|i: int| !self.is_set(i)),
    {
        proof {
            lemma_zero_iff_no_bits(self.map);
            if self.map != 0 {
                let i = choose|i: u128| i < 128 && bit_of(self.map, i);
                assert(self.is_set(i as int));
            }
        }
        self.map
    }
}

} // verus!
