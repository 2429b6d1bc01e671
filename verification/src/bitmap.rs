//! A generic bitmap for handing out identifiers in the kernel.
use vstd::prelude::*;

verus! {

/// Number of bits held by one chunk of a bitmap.
pub const CHUNK_BITS: usize = 128;

/// Whether bit `k` (counted from the least significant end) of `chunk` is set.
pub open spec fn chunk_bit(chunk: u128, k: int) -> bool {
    (chunk >> (k as u128)) & 1u128 == 1u128
}

/// Setting bit `k` of a chunk sets that bit and leaves every other bit as it was.
pub proof fn lemma_chunk_set(c: u128, k: u128, j: u128)
    requires
        k < 128,
        j < 128,
    ensures
        ((c | (1u128 << k)) >> j) & 1u128 == (if j == k { 1u128 } else { (c >> j) & 1u128 }),
{
    assert(((c | (1u128 << k)) >> j) & 1u128 == (if j == k { 1u128 } else { (c >> j) & 1u128 }))
        by (bit_vector)
        requires
            k < 128,
            j < 128,
    ;
}

/// Clearing bit `k` of a chunk clears that bit and leaves every other bit as it was.
pub proof fn lemma_chunk_clear(c: u128, k: u128, j: u128)
    requires
        k < 128,
        j < 128,
    ensures
        ((c & !(1u128 << k)) >> j) & 1u128 == (if j == k { 0u128 } else { (c >> j) & 1u128 }),
{
    assert(((c & !(1u128 << k)) >> j) & 1u128 == (if j == k { 0u128 } else { (c >> j) & 1u128 }))
        by (bit_vector)
        requires
            k < 128,
            j < 128,
    ;
}

/// Every bit of the zero chunk is clear.
pub proof fn lemma_chunk_zero(j: u128)
    requires
        j < 128,
    ensures
        (0u128 >> j) & 1u128 == 0u128,
{
    assert((0u128 >> j) & 1u128 == 0u128) by (bit_vector);
}

/// A bit of a chunk is either set or clear.
pub proof fn lemma_chunk_bit_values(c: u128, j: u128)
    ensures
        (c >> j) & 1u128 == 0u128 || (c >> j) & 1u128 == 1u128,
{
    assert((c >> j) & 1u128 == 0u128 || (c >> j) & 1u128 == 1u128) by (bit_vector);
}

/// Every bit of the full chunk is set.
pub proof fn lemma_chunk_full(k: int)
    requires
        0 <= k < 128,
    ensures
        chunk_bit(u128::MAX, k),
{
    let j = k as u128;
    assert((u128::MAX >> j) & 1u128 == 1u128) by (bit_vector)
        requires
            j < 128,
    ;
}


/// The bits held by a sequence of chunks, bit `i` being bit `i % 128` of chunk `i / 128`.
pub open spec fn chunks_view(chunks: Seq<u128>, bits: nat) -> Seq<bool> {
    Seq::new(bits, |i: int| chunk_bit(chunks[i / 128], i % 128))
}

/// Write one bit of a sequence of chunks.
pub(crate) fn write_bit(chunks: &mut Vec<u128>, bit: usize, value: bool)
    requires
        bit < old(chunks)@.len() * 128,
    ensures
        final(chunks)@.len() == old(chunks)@.len(),
        forall|bits: nat| bits <= old(chunks)@.len() * 128 && bit < bits ==>
            #[trigger] chunks_view(final(chunks)@, bits)
                == chunks_view(old(chunks)@, bits).update(bit as int, value),
{
    let index = bit / 128;
    let shift = bit % 128;
    let chunk = if value {
        chunks[index] | (1u128 << shift)
    } else {
        chunks[index] & !(1u128 << shift)
    };
    chunks[index] = chunk;
    proof {
        assert forall|bits: nat| bits <= old(chunks)@.len() * 128 && bit < bits implies
            #[trigger] chunks_view(chunks@, bits)
                == chunks_view(old(chunks)@, bits).update(bit as int, value) by {
            assert forall|j: int| 0 <= j < bits implies chunks_view(chunks@, bits)[j]
                == chunks_view(old(chunks)@, bits).update(bit as int, value)[j] by {
                let q = j / 128;
                let r = j % 128;
                let n = old(chunks)@.len();
                assert(0 <= q < n) by (nonlinear_arith)
                    requires q == j / 128, 0 <= j < bits, bits <= n * 128;
                if value {
                    lemma_chunk_set(old(chunks)@[index as int], shift as u128, r as u128);
                } else {
                    lemma_chunk_clear(old(chunks)@[index as int], shift as u128, r as u128);
                }
                lemma_chunk_bit_values(old(chunks)@[q], r as u128);
            }
            assert(chunks_view(chunks@, bits) =~= chunks_view(old(chunks)@, bits).update(
                bit as int,
                value,
            ));
        }
    }
}

/// A bitmap with SIZE * 128 bits.
pub struct Bitmap<const SIZE: usize> {
    bitmap: Vec<u128>,
}

impl<const SIZE: usize> View for Bitmap<SIZE> {
    type V = Seq<bool>;

    /// The bits of the bitmap, lowest index first.
    closed spec fn view(&self) -> Seq<bool> {
        chunks_view(self.bitmap@, (SIZE * 128) as nat)
    }
}

impl<const SIZE: usize> Bitmap<SIZE> {
    /// The bitmap holds one chunk per 128 bits, and every bit index fits in a `usize`.
    pub closed spec fn wf(&self) -> bool {
        &&& self.bitmap@.len() == SIZE
        &&& SIZE * 128 <= usize::MAX
    }

    /// A bitmap has one bit per index below its capacity.
    pub proof fn lemma_len(&self)
        ensures
            self@.len() == Self::capacity(),
    {
    }

    /// The number of bits of a bitmap of this size.
    pub open spec fn capacity() -> nat {
        (SIZE * 128) as nat
    }

    /// Create a new bitmap
    pub fn new() -> (bitmap: Bitmap<SIZE>)
        requires
            SIZE * 128 <= usize::MAX,
        ensures
            bitmap.wf(),
            bitmap@ == Seq::new(Self::capacity(), |i: int| false),
    {
        let mut chunks: Vec<u128> = Vec::new();
        let mut i: usize = 0;
        while i < SIZE
            invariant
                i <= SIZE,
                chunks@.len() == i,
                forall|j: int| 0 <= j < i ==> chunks@[j] == 0u128,
            decreases SIZE - i,
        {
            chunks.push(0u128);
            i = i + 1;
        }
        let bitmap = Bitmap { bitmap: chunks };
        assert forall|j: int| 0 <= j < Self::capacity() implies !bitmap@[j] by {
            lemma_chunk_zero((j % 128) as u128);
        }
        bitmap
    }

    /// Find the first clear bit. This does NOT set the bit
    pub fn find_clear(&mut self) -> (bit: Option<usize>)
        requires
            old(self).wf(),
        ensures
            *final(self) == *old(self),
            match bit {
                Some(b) => {
                    &&& b < Self::capacity()
                    &&& !old(self)@[b as int]
                    &&& forall|j: int| 0 <= j < b ==> old(self)@[j]
                },
                None => forall|j: int| 0 <= j < Self::capacity() ==> old(self)@[j],
            },
    {
        self.find_first_clear()
    }

    /// The lowest clear bit, if any.
    fn find_first_clear(&self) -> (bit: Option<usize>)
        requires
            self.wf(),
        ensures
            match bit {
                Some(b) => {
                    &&& b < Self::capacity()
                    &&& !self@[b as int]
                    &&& forall|j: int| 0 <= j < b ==> self@[j]
                },
                None => forall|j: int| 0 <= j < Self::capacity() ==> self@[j],
            },
    {
        let full: u128 = u128::MAX;
        let mut index: usize = 0;
        while index < self.bitmap.len()
            invariant
                self.wf(),
                full == u128::MAX,
                index <= SIZE,
                forall|j: int| 0 <= j < index * 128 ==> self@[j],
            decreases SIZE - index,
        {
            let chunk = self.bitmap[index];
            if chunk != full {
                let mut k: usize = 0;
                while k < 128
                    invariant
                        self.wf(),
                        index < SIZE,
                        k <= 128,
                        chunk == self.bitmap@[index as int],
                        forall|j: int| 0 <= j < index * 128 + k ==> self@[j],
                    decreases 128 - k,
                {
                    if (chunk >> k) & 1u128 == 0u128 {
                        let b = index * 128 + k;
                        assert(b / 128 == index as int && b % 128 == k as int) by (nonlinear_arith)
                            requires b == index * 128 + k, k < 128;
                        return Some(b);
                    }
                    proof {
                        let b = index * 128 + k;
                        assert(b / 128 == index as int && b % 128 == k as int) by (nonlinear_arith)
                            requires b == index * 128 + k, k < 128;
                        lemma_chunk_bit_values(chunk, k as u128);
                    }
                    k = k + 1;
                }
            } else {
                assert forall|j: int| index * 128 <= j < index * 128 + 128 implies self@[j] by {
                    assert(j / 128 == index as int && j % 128 == j - index * 128
                        && j < SIZE * 128) by (nonlinear_arith)
                        requires index * 128 <= j < index * 128 + 128, index < SIZE;
                    lemma_chunk_full(j % 128);
                }
            }
            index = index + 1;
        }
        None
    }

    /// Set a bit
    pub fn set(&mut self, bit: usize)
        requires
            old(self).wf(),
            bit < Self::capacity(),
        ensures
            final(self).wf(),
            final(self)@ == old(self)@.update(bit as int, true),
    {
        write_bit(&mut self.bitmap, bit, true);
    }

    /// Unset a id
    pub fn unset(&mut self, bit: usize)
        requires
            old(self).wf(),
            bit < Self::capacity(),
        ensures
            final(self).wf(),
            final(self)@ == old(self)@.update(bit as int, false),
    {
        write_bit(&mut self.bitmap, bit, false);
    }

    /// Find the first clear bit and set it.
    ///
    /// This is a convenince function for [find_clear](Bitmap::find_clear) and [set](Bitmap::set).
    pub fn allocate(&mut self) -> (bit: Option<usize>)
        requires
            old(self).wf(),
        ensures
            final(self).wf(),
            match bit {
                Some(b) => {
                    &&& b < Self::capacity()
                    &&& !old(self)@[b as int]
                    &&& forall|j: int| 0 <= j < b ==> old(self)@[j]
                    &&& final(self)@ == old(self)@.update(b as int, true)
                },
                None => {
                    &&& forall|j: int| 0 <= j < Self::capacity() ==> old(self)@[j]
                    &&& final(self)@ == old(self)@
                },
            },
    {
        let bit = self.find_clear();
        match bit {
            Some(b) => {
                self.set(b);
                Some(b)
            },
            None => None,
        }
    }
}

/// Setting a clear bit and then unsetting it gives back the bitmap it started from.
pub proof fn lemma_set_then_unset(bits: Seq<bool>, bit: int)
    requires
        0 <= bit < bits.len(),
        !bits[bit],
    ensures
        bits.update(bit, true).update(bit, false) == bits,
{
}

/// Two allocations in a row hand out different bits, the second one higher than the first:
/// the bits before the first one were all set, and the first one is set now.
pub proof fn lemma_allocations_increase(bits: Seq<bool>, first: int, second: int)
    requires
        0 <= first < bits.len(),
        !bits[first],
        forall|j: int| 0 <= j < first ==> bits[j],
        0 <= second < bits.len(),
        !bits.update(first, true)[second],
    ensures
        first < second,
{
}

} // verus!
