//! Sets of endpoints.
use vstd::prelude::*;

verus! {

/// A set of endpoints. Its view holds their addresses.
#[derive(Clone, Copy, Debug, PartialEq, Eq)]
pub struct EndpointBitSet {
    /// One bit for each OUT address, counted from 0.
    pub out_bits: u128,
    /// One bit for each IN address, counted from 0x80.
    pub in_bits: u128,
}

/// Whether bit `index` of `bits` is set.
pub open spec fn has_bit(bits: u128, index: u8) -> bool {
    (bits >> (index as u128)) & 1 == 1
}

impl View for EndpointBitSet {
    type V = Set<u8>;

    open spec fn view(&self) -> Set<u8> {
        Set::new(
            |address: u8|
                if address < 0x80 {
                    has_bit(self.out_bits, address)
                } else {
                    has_bit(self.in_bits, (address - 0x80) as u8)
                },
        )
    }
}

/// The bit at `index`, alone.
fn single_bit(index: u8) -> (r: u128)
    requires
        index < 128,
    ensures
        r == 1u128 << (index as u128),
{
    1u128 << (index as u128)
}

proof fn lemma_no_bit(index: u8)
    ensures
        !has_bit(0, index),
{
    let at = index as u128;
    assert((0u128 >> at) & 1 == 0) by (bit_vector);
}

proof fn lemma_set_bit(bits: u128, index: u8, other: u8)
    requires
        index < 128,
        other < 128,
    ensures
        has_bit(bits | (1u128 << (index as u128)), other) == (index == other || has_bit(bits, other)),
{
    let i = index as u128;
    let j = other as u128;
    assert(((bits | (1u128 << i)) >> j) & 1 == 1 <==> i == j || (bits >> j) & 1 == 1)
        by (bit_vector)
        requires
            i < 128,
            j < 128,
    ;
}

proof fn lemma_clear_bit(bits: u128, index: u8, other: u8)
    requires
        index < 128,
        other < 128,
    ensures
        has_bit(bits & !(1u128 << (index as u128)), other) == (index != other && has_bit(
            bits,
            other,
        )),
{
    let i = index as u128;
    let j = other as u128;
    assert(((bits & !(1u128 << i)) >> j) & 1 == 1 <==> i != j && (bits >> j) & 1 == 1)
        by (bit_vector)
        requires
            i < 128,
            j < 128,
    ;
}

/// A number whose low `count` bits are clear is zero once the others are shifted out.
proof fn lemma_low_bits(bits: u128, count: u8)
    requires
        0 < count <= 128,
        forall|index: u8| index < count ==> !#[trigger] has_bit(bits, index),
    ensures
        bits << ((128 - count) as u128) == 0,
    decreases count,
{
    let last = (count - 1) as u8;
    assert(!has_bit(bits, last));
    let at = last as u128;
    let shift = (128 - count) as u128;
    assert((bits >> at) & 1 == 0 || (bits >> at) & 1 == 1) by (bit_vector);
    if count == 1 {
        assert(bits << 127u128 == 0) by (bit_vector)
            requires
                (bits >> 0u128) & 1 == 0,
        ;
    } else {
        lemma_low_bits(bits, last);
        let shift_more = (128 - last) as u128;
        assert(bits << shift == 0) by (bit_vector)
            requires
                0 < at < 128,
                shift == 127 - at,
                shift_more == 128 - at,
                (bits >> at) & 1 == 0,
                bits << shift_more == 0,
        ;
    }
}

/// A number none of whose bits is set is zero.
proof fn lemma_no_bits(bits: u128)
    requires
        forall|index: u8| index < 128 ==> !#[trigger] has_bit(bits, index),
    ensures
        bits == 0,
{
    lemma_low_bits(bits, 128);
    assert(bits == 0) by (bit_vector)
        requires
            bits << 0u128 == 0,
    ;
}

impl Default for EndpointBitSet {
    /// The empty set.
    fn default() -> (r: EndpointBitSet)
        ensures
            r == (EndpointBitSet { out_bits: 0, in_bits: 0 }),
            r@ == Set::<u8>::empty(),
    {
        proof {
            assert forall|index: u8| !#[trigger] has_bit(0, index) by {
                lemma_no_bit(index);
            }
        }
        EndpointBitSet { out_bits: 0, in_bits: 0 }
    }
}

impl EndpointBitSet {
    /// Whether the set holds no endpoint.
    pub fn is_empty(&self) -> (r: bool)
        ensures
            r == (self@ == Set::<u8>::empty()),
    {
        proof {
            assert forall|index: u8| !#[trigger] has_bit(0, index) by {
                lemma_no_bit(index);
            }
            if self.out_bits == 0 && self.in_bits == 0 {
                assert(self@ =~= Set::<u8>::empty());
            }
            if self@ == Set::<u8>::empty() {
                assert forall|index: u8| index < 128 implies !#[trigger] has_bit(
                    self.out_bits,
                    index,
                ) by {
                    assert(!self@.contains(index));
                }
                lemma_no_bits(self.out_bits);
                assert forall|index: u8| index < 128 implies !#[trigger] has_bit(
                    self.in_bits,
                    index,
                ) by {
                    assert(!self@.contains((index + 0x80) as u8));
                }
                lemma_no_bits(self.in_bits);
            }
        }
        self.out_bits == 0 && self.in_bits == 0
    }

    /// Whether the endpoint is in the set.
    pub fn is_set(&self, address: u8) -> (r: bool)
        ensures
            r == self@.contains(address),
    {
        if address < 0x80 {
            (self.out_bits >> (address as u128)) & 1 == 1
        } else {
            (self.in_bits >> ((address - 0x80) as u128)) & 1 == 1
        }
    }

    /// Adds the endpoint to the set.
    pub fn set(&mut self, address: u8)
        ensures
            final(self)@ == old(self)@.insert(address),
    {
        if address < 0x80 {
            self.out_bits = self.out_bits | single_bit(address);
        } else {
            self.in_bits = self.in_bits | single_bit(address - 0x80);
        }
        proof {
            assert forall|other: u8| #[trigger]
                self@.contains(other) == old(self)@.insert(address).contains(other) by {
                if address < 0x80 && other < 0x80 {
                    lemma_set_bit(old(self).out_bits, address, other);
                } else if address >= 0x80 && other >= 0x80 {
                    lemma_set_bit(
                        old(self).in_bits,
                        (address - 0x80) as u8,
                        (other - 0x80) as u8,
                    );
                }
            }
        }
    }

    /// Takes the endpoint out of the set.
    pub fn clear(&mut self, address: u8)
        ensures
            final(self)@ == old(self)@.remove(address),
    {
        if address < 0x80 {
            self.out_bits = self.out_bits & !single_bit(address);
        } else {
            self.in_bits = self.in_bits & !single_bit(address - 0x80);
        }
        proof {
            assert forall|other: u8| #[trigger]
                self@.contains(other) == old(self)@.remove(address).contains(other) by {
                if address < 0x80 && other < 0x80 {
                    lemma_clear_bit(old(self).out_bits, address, other);
                } else if address >= 0x80 && other >= 0x80 {
                    lemma_clear_bit(
                        old(self).in_bits,
                        (address - 0x80) as u8,
                        (other - 0x80) as u8,
                    );
                }
            }
        }
    }
}

} // verus!
