//! The 16-key keypad snapshot. The host owns and updates it; the core only
//! reads it. The key states live in a `bv::BitVec`, which is opaque here, so
//! its contents are named by an uninterpreted sequence of booleans and every
//! access goes through a trusted wrapper whose contract follows `bv`'s
//! documented behaviour.

use vstd::prelude::*;

verus! {

/// The bit store behind the keypad. `bv::BitVec`'s generic bounds cannot be
/// declared here, so the vector sits in a field Verus does not look into and
/// its contents are reached only through `bitvec_bits`.
#[verifier::external_body]
pub struct KeyBits {
    inner: bv::BitVec<u16>,
}

/// The bits the store holds, in index order.
pub uninterp spec fn bitvec_bits(b: KeyBits) -> Seq<bool>;

/// Relies on bv::BitVec::new_fill: a vector of `len` bits, every one equal
/// to `value`.
#[verifier::external_body]
fn bitvec_new_fill(value: bool, len: u64) -> (r: KeyBits)
    ensures
        bitvec_bits(r) == Seq::new(len as nat, |k: int| value),
{
    KeyBits { inner: bv::BitVec::new_fill(value, len) }
}

/// Relies on bv::BitVec::get: the bit at `position`; panics out of range.
#[verifier::external_body]
fn bitvec_get(b: &KeyBits, position: u64) -> (r: bool)
    requires
        position < bitvec_bits(*b).len(),
    ensures
        r == bitvec_bits(*b)[position as int],
{
    b.inner.get(position)
}

/// Relies on bv::BitVec::set: writes the bit at `position` and leaves the
/// rest alone; panics out of range.
#[verifier::external_body]
fn bitvec_set(b: &mut KeyBits, position: u64, value: bool)
    requires
        position < bitvec_bits(*old(b)).len(),
    ensures
        bitvec_bits(*final(b)) == bitvec_bits(*old(b)).update(position as int, value),
{
    b.inner.set(position, value)
}

/// Sixteen boolean key states, indexed 0x0 through 0xf.
pub struct Keypad {
    state: KeyBits,
}

impl Keypad {
    /// The key states, in index order.
    pub closed spec fn keys(&self) -> Seq<bool> {
        bitvec_bits(self.state)
    }

    /// The snapshot always holds exactly sixteen keys.
    pub closed spec fn wf(&self) -> bool {
        bitvec_bits(self.state).len() == 16
    }

    /// A keypad with every key released.
    pub fn new() -> (r: Keypad)
        ensures
            r.wf(),
            r.keys() =~= Seq::new(16, |k: int| false),
    {
        Keypad { state: bitvec_new_fill(false, 16) }
    }

    /// Whether the key `key` is currently pressed.
    pub fn get(&self, key: usize) -> (r: bool)
        requires
            self.wf(),
            key < 16,
        ensures
            r == self.keys()[key as int],
    {
        bitvec_get(&self.state, key as u64)
    }

    /// Records the key `key` as pressed or released.
    pub fn set(&mut self, key: usize, state: bool)
        requires
            old(self).wf(),
            key < 16,
        ensures
            final(self).wf(),
            final(self).keys() == old(self).keys().update(key as int, state),
    {
        bitvec_set(&mut self.state, key as u64, state)
    }
}

} // verus!
