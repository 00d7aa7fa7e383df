//! A simple iterator over the bits of an integer, used to navigate through
//! the bit fields of a packed steam id.
//!
//! The iteration starts always from the left to the right: the first
//! processed bits are the most significant ones, until the last, 0th bit.

use vstd::prelude::*;

verus! {

/// The value of the `amount` bits of `num` that end just below bit position
/// `from`, where bit positions are counted from the least significant bit.
/// The extracted field is returned in the low bits, zero-extended.
pub open spec fn bits_spec(num: u64, from: u8, amount: u8) -> u64
    recommends
        amount <= from <= 64,
{
    if amount == 0 {
        0u64
    } else if amount == 64 {
        num
    } else {
        (num >> ((from - amount) as u64)) & (((1u64 << (amount as u64)) - 1) as u64)
    }
}

/// Gets the bits starting from the specified position in the amount passed.
pub fn bits(num: u64, from: u8, amount: u8) -> (r: u64)
    requires
        amount <= from,
        from <= 64,
    ensures
        r == bits_spec(num, from, amount),
{
    if amount == 0 {
        0
    } else if amount == 64 {
        num
    } else {
        proof {
            assert(1u64 << (amount as u64) >= 1) by (bit_vector)
                requires
                    0 < amount < 64,
            ;
        }
        let length = from - amount;
        (num >> (length as u64)) & ((1u64 << (amount as u64)) - 1)
    }
}

/// An iterator over the bits of a `u64` number.
/// The bit reading (the iteration) starts always from the left to the right.
/// That means, the first processed bits are going to be 64, 63, 62 ... until
/// the last, 0th bit.
pub struct BitIterator {
    // The object it iterates over.
    object: u64,
    // The length in bits of a single iteration.
    iter_length: u8,
    // Current bit position within the `object`.
    current_pos: u8,
}

impl BitIterator {
    /// The number the iterator walks over.
    pub closed spec fn object(self) -> u64 {
        self.object
    }

    /// The width in bits of a single iteration.
    pub closed spec fn width(self) -> u8 {
        self.iter_length
    }

    /// The current bit cursor: how many bits are still unread.
    pub closed spec fn pos(self) -> u8 {
        self.current_pos
    }

    /// The cursor and the width never leave the 64 bits of the value.
    pub open spec fn wf(self) -> bool {
        self.pos() <= 64 && self.width() <= 64
    }

    /// Instantiates a new bit iterator. Requires an object to iterate over
    /// and a length of a single iteration, which must fit into the 64 bits
    /// of the object.
    pub fn new(object: u64, iter_length: u8) -> (r: BitIterator)
        requires
            iter_length <= 64,
        ensures
            r.wf(),
            r.object() == object,
            r.width() == iter_length,
            r.pos() == 64,
    {
        BitIterator { object, iter_length, current_pos: 64 }
    }

    /// Changes the length of a single iteration. The new length must not
    /// exceed the number of unread bits.
    pub fn change_iter_length(&mut self, iter_length: u8)
        requires
            old(self).wf(),
            iter_length <= old(self).pos(),
        ensures
            final(self).wf(),
            final(self).object() == old(self).object(),
            final(self).pos() == old(self).pos(),
            final(self).width() == iter_length,
    {
        self.iter_length = iter_length;
    }

    /// Extracts the next `width` most significant unread bits and moves the
    /// cursor past them; yields nothing once fewer than `width` bits remain.
    pub fn next(&mut self) -> (r: Option<u64>)
        requires
            old(self).wf(),
        ensures
            final(self).wf(),
            final(self).object() == old(self).object(),
            final(self).width() == old(self).width(),
            old(self).pos() >= old(self).width() ==> {
                &&& r == Some(bits_spec(old(self).object(), old(self).pos(), old(self).width()))
                &&& final(self).pos() == old(self).pos() - old(self).width()
            },
            old(self).pos() < old(self).width() ==> {
                &&& r is None
                &&& final(self).pos() == old(self).pos()
            },
    {
        if self.current_pos >= self.iter_length {
            let item = bits(self.object, self.current_pos, self.iter_length);
            self.current_pos = self.current_pos - self.iter_length;
            Some(item)
        } else {
            None
        }
    }

    /// Changes the iteration length to `amount` and fetches the `amount` of
    /// bits from the `object`.
    pub fn next_bits(&mut self, amount: u8) -> (r: Option<u64>)
        requires
            old(self).wf(),
            amount <= old(self).pos(),
        ensures
            final(self).wf(),
            final(self).object() == old(self).object(),
            final(self).width() == amount,
            r == Some(bits_spec(old(self).object(), old(self).pos(), amount)),
            final(self).pos() == old(self).pos() - amount,
    {
        self.change_iter_length(amount);
        self.next()
    }
}

} // verus!
