//! The slot registry: which exclusivity slots have been claimed.
use bitvec::order::Msb0;
use bitvec::vec::BitVec;
use vstd::prelude::*;

verus! {

/// A bit-vector of claim flags, one per slot. It is kept opaque because
/// Verus refuses `BitVec` declared with its `BitStore` and `BitOrder` bounds.
#[verifier::external_body]
pub struct ClaimBits {
    bits: BitVec<u8, Msb0>,
}

/// The flags held by a bit-vector, first bit first.
pub uninterp spec fn bits_of(b: ClaimBits) -> Seq<bool>;

/// Relies on `BitVec::repeat`: `len` bits, each equal to `bit`.
#[verifier::external_body]
fn bits_repeat(bit: bool, len: usize) -> (r: ClaimBits)
    ensures
        bits_of(r) == Seq::new(len as nat, |i: int| bit),
{
    ClaimBits { bits: BitVec::<u8, Msb0>::repeat(bit, len) }
}

/// Relies on `BitSlice::get`: the bit at `index`, or `None` past the end.
#[verifier::external_body]
fn bit_at(b: &ClaimBits, index: usize) -> (r: Option<bool>)
    ensures
        r == (if index < bits_of(*b).len() { Some(bits_of(*b)[index as int]) } else { None }),
{
    b.bits.get(index).map(|bit| *bit)
}

/// Relies on `BitVec::len`: the number of bits held.
#[verifier::external_body]
fn bits_len(b: &ClaimBits) -> (r: usize)
    ensures
        r == bits_of(*b).len(),
{
    b.bits.len()
}

/// Relies on `BitSlice::set`: writes one bit and leaves the others; it panics
/// past the end, which `requires` rules out.
#[verifier::external_body]
fn set_bit(b: &mut ClaimBits, index: usize, value: bool)
    requires
        index < bits_of(*old(b)).len(),
    ensures
        bits_of(*final(b)) == bits_of(*old(b)).update(index as int, value),
{
    b.bits.set(index, value)
}

/// Why a slot could not be claimed.
#[derive(Debug, Clone, Copy, PartialEq, Eq, Structural)]
pub enum ClaimError {
    /// The slot index is not below the configured slot count.
    Configuration,
    /// The slot has already been claimed.
    DoubleClaim,
    /// The lock that serialises claims was held by someone else; raised by a
    /// shared holder of the registry, never by the registry itself.
    LockContention,
}

/// What claiming `slot` on claim flags `flags` yields: the outcome, and the
/// flags afterwards.
pub open spec fn claim_spec(flags: Seq<bool>, slot: int) -> (Result<(), ClaimError>, Seq<bool>) {
    if slot < 0 || slot >= flags.len() {
        (Err(ClaimError::Configuration), flags)
    } else if flags[slot] {
        (Err(ClaimError::DoubleClaim), flags)
    } else {
        (Ok(()), flags.update(slot, true))
    }
}

/// A fixed number of exclusivity slots, each claimed at most once.
pub struct SlotRegistry {
    bits: ClaimBits,
}

/// The slot count used when none is configured.
pub const DEFAULT_SLOTS: usize = 1;

impl View for SlotRegistry {
    /// One claim flag per slot.
    type V = Seq<bool>;

    closed spec fn view(&self) -> Seq<bool> {
        bits_of(self.bits)
    }
}

impl SlotRegistry {
    /// A registry of `slots` slots, none claimed.
    pub fn new(slots: usize) -> (r: SlotRegistry)
        ensures
            r@ == Seq::new(slots as nat, |i: int| false),
    {
        SlotRegistry { bits: bits_repeat(false, slots) }
    }

    /// A registry of the default slot count, none claimed.
    pub fn with_default_slots() -> (r: SlotRegistry)
        ensures
            r@ == Seq::new(DEFAULT_SLOTS as nat, |i: int| false),
    {
        SlotRegistry::new(DEFAULT_SLOTS)
    }

    /// The number of slots.
    pub fn slot_count(&self) -> (r: usize)
        ensures
            r == self@.len(),
    {
        bits_len(&self.bits)
    }

    /// Whether `slot` exists and has been claimed.
    pub fn is_claimed(&self, slot: usize) -> (r: bool)
        ensures
            r == (slot < self@.len() && self@[slot as int]),
    {
        match bit_at(&self.bits, slot) {
            Some(bit) => bit,
            None => false,
        }
    }

    /// Claims `slot` if it exists and is still free.
    pub fn try_claim(&mut self, slot: usize) -> (r: Result<(), ClaimError>)
        ensures
            (r, final(self)@) == claim_spec(old(self)@, slot as int),
            r is Ok <==> slot < old(self)@.len() && !old(self)@[slot as int],
            r == Err::<(), ClaimError>(ClaimError::Configuration) <==> slot >= old(self)@.len(),
            r == Err::<(), ClaimError>(ClaimError::DoubleClaim) <==> slot < old(self)@.len() && old(self)@[slot as int],
    {
        match bit_at(&self.bits, slot) {
            None => Err(ClaimError::Configuration),
            Some(true) => Err(ClaimError::DoubleClaim),
            Some(false) => {
                set_bit(&mut self.bits, slot, true);
                Ok(())
            },
        }
    }
}

/// Once a claim on `slot` has succeeded, claiming `slot` again fails with
/// [`ClaimError::DoubleClaim`] and changes nothing.
pub proof fn lemma_second_claim_fails(flags: Seq<bool>, slot: int)
    requires
        claim_spec(flags, slot).0 is Ok,
    ensures
        claim_spec(claim_spec(flags, slot).1, slot) == (
            Err::<(), ClaimError>(ClaimError::DoubleClaim),
            claim_spec(flags, slot).1,
        ),
{
}

/// A slot index at or past the slot count never gives a claim, whatever was
/// claimed before: it fails with [`ClaimError::Configuration`].
pub proof fn lemma_claim_out_of_range(flags: Seq<bool>, slot: int)
    requires
        slot >= flags.len(),
    ensures
        claim_spec(flags, slot) == (Err::<(), ClaimError>(ClaimError::Configuration), flags),
{
}

/// Slots are independent: claiming `first`, whether it succeeds or not,
/// does not change what claiming a different slot `second` returns.
pub proof fn lemma_slots_independent(flags: Seq<bool>, first: int, second: int)
    requires
        first != second,
    ensures
        claim_spec(claim_spec(flags, first).1, second).0 == claim_spec(flags, second).0,
{
}

} // verus!
