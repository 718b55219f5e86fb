//! The key pad as the input service reports it: one bit per key.

use vstd::prelude::*;

verus! {

/// The keys that the menu reacts to.
#[derive(Clone, Copy, Debug, PartialEq, Eq, Structural)]
pub enum Key {
    A,
    B,
    X,
    Start,
}

impl Key {
    /// The bit that the input service sets in its report while the key is
    /// held down.
    pub open spec fn bit(self) -> u32 {
        match self {
            Key::A => 0x1,
            Key::B => 0x2,
            Key::Start => 0x8,
            Key::X => 0x400,
        }
    }

    pub fn mask(self) -> (m: u32)
        ensures
            m == self.bit(),
    {
        match self {
            Key::A => 0x1,
            Key::B => 0x2,
            Key::Start => 0x8,
            Key::X => 0x400,
        }
    }
}

/// One report of the key pad: the set of keys held down in a frame.
///
/// The report covers the whole pad, also the keys that the menu has no use
/// for, so two reports differ as soon as any key went down or up.
#[derive(Clone, Copy, Debug, PartialEq, Eq, Structural)]
pub struct Keys {
    pub bits: u32,
}

impl Keys {
    /// Whether `key` is held down in this report.
    pub open spec fn holds(self, key: Key) -> bool {
        self.bits & key.bit() != 0
    }

    /// The report of a pad that nobody touches.
    pub fn empty() -> (keys: Keys)
        ensures
            keys.bits == 0,
            forall|key: Key| !(#[trigger] keys.holds(key)),
    {
        proof {
            Keys::lemma_empty_holds_nothing();
        }
        Keys { bits: 0 }
    }

    pub fn from_bits(bits: u32) -> (keys: Keys)
        ensures
            keys.bits == bits,
    {
        Keys { bits }
    }

    pub fn bits(&self) -> (bits: u32)
        ensures
            bits == self.bits,
    {
        self.bits
    }

    pub fn intersects(&self, key: Key) -> (held: bool)
        ensures
            held <==> self.holds(key),
    {
        (self.bits & key.mask()) != 0
    }

    /// This report with `key` held down as well.
    pub fn with(self, key: Key) -> (keys: Keys)
        ensures
            keys.bits == self.bits | key.bit(),
            forall|other: Key| #[trigger] keys.holds(other) <==> (other == key || self.holds(other)),
    {
        let keys = Keys { bits: self.bits | key.mask() };
        proof {
            Keys::lemma_with_adds_one_key(self, key, keys);
        }
        keys
    }

    /// No key is held in the empty report.
    pub proof fn lemma_empty_holds_nothing()
        ensures
            forall|key: Key| !(#[trigger] (Keys { bits: 0 }).holds(key)),
    {
        assert forall|key: Key| !(#[trigger] (Keys { bits: 0 }).holds(key)) by {
            let m: u32 = key.bit();
            assert(0u32 & m == 0) by (bit_vector);
        }
    }

    /// Distinct keys have distinct bits, so setting the bit of one key
    /// changes what the report says of that key and of no other.
    pub proof fn lemma_with_adds_one_key(before: Keys, key: Key, after: Keys)
        requires
            after.bits == before.bits | key.bit(),
        ensures
            forall|other: Key| #[trigger] after.holds(other) <==> (other == key || before.holds(other)),
    {
        let b: u32 = before.bits;
        let k: u32 = key.bit();
        assert forall|other: Key| #[trigger] after.holds(other) <==> (other == key || before.holds(other)) by {
            let o: u32 = other.bit();
            if other == key {
                assert(k != 0 ==> (b | k) & k != 0) by (bit_vector);
            } else {
                assert(k != o);
                assert((k == 0x1 || k == 0x2 || k == 0x8 || k == 0x400) && (o == 0x1 || o == 0x2
                    || o == 0x8 || o == 0x400) && k != o ==> (((b | k) & o != 0) <==> (b & o
                    != 0))) by (bit_vector);
            }
        }
    }
}

} // verus!
