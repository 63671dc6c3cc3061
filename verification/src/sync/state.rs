//! The blocking backend's state: one machine word holding four flag bits and,
//! while locked, the identity of the holding thread in the remaining bits.

use vstd::prelude::*;
use crate::sync::thread_id::ThreadId;

verus! {

pub const INIT_BIT: usize = 0b0001;
pub const LOCKED_BIT: usize = 0b0010;
pub const PARKED_BIT: usize = 0b0100;
pub const POISON_BIT: usize = 0b1000;
pub const THREAD_ID_MASK: usize = !0b1111;

/// One machine word: flags {init, locked, parked, poison} plus the holder's
/// thread identity in the remaining bits while locked.
#[derive(Copy, Clone, Eq, PartialEq, Structural, Debug)]
pub struct State(usize);

impl State {
    /// The word as stored.
    pub closed spec fn word(self) -> usize {
        self.0
    }

    /// The slot holds a committed value.
    pub open spec fn is_init(self) -> bool {
        self.word() & INIT_BIT != 0
    }

    /// A writer currently holds the slot.
    pub open spec fn is_locked(self) -> bool {
        self.word() & LOCKED_BIT != 0
    }

    /// At least one thread is parked waiting for the slot.
    pub open spec fn is_parked(self) -> bool {
        self.word() & PARKED_BIT != 0
    }

    /// An initializer failed; the slot is terminally unusable.
    pub open spec fn is_poison(self) -> bool {
        self.word() & POISON_BIT != 0
    }

    /// The identity bits: the holder's thread identity while locked.
    pub open spec fn owner(self) -> usize {
        self.word() & THREAD_ID_MASK
    }

    /// The word with every flag clear and no owner: the uninitialized state.
    pub fn new() -> (r: Self)
        ensures
            !r.is_init(),
            !r.is_locked(),
            !r.is_parked(),
            !r.is_poison(),
            r.owner() == 0,
            r.word() == 0,
    {
        proof {
            assert(0usize & 0b0001 == 0 && 0usize & 0b0010 == 0 && 0usize & 0b0100 == 0
                && 0usize & 0b1000 == 0 && 0usize & !0b1111 == 0) by (bit_vector);
        }
        State(0)
    }

    /// The word as stored, for handing to an atomic cell.
    pub fn to_word(self) -> (r: usize)
        ensures
            r == self.word(),
    {
        self.0
    }

    /// A state read back from an atomic cell.
    pub fn from_word(w: usize) -> (r: Self)
        ensures
            r.word() == w,
    {
        State(w)
    }

    fn get_bit(self, index: usize) -> (r: bool)
        ensures
            r == (self.word() & index != 0),
    {
        self.0 & index != 0
    }

    fn with_bit(self, index: usize, value: bool) -> (r: Self)
        ensures
            value ==> r.word() == (self.word() | index),
            !value ==> r.word() == (self.word() & !index),
    {
        if value {
            State(self.0 | index)
        } else {
            State(self.0 & !index)
        }
    }

    /// Reads the init flag.
    pub fn init(self) -> (r: bool)
        ensures
            r == self.is_init(),
    {
        self.get_bit(INIT_BIT)
    }

    /// The word with the init flag set to `value` and all else unchanged.
    #[must_use]
    pub fn with_init(self, value: bool) -> (r: Self)
        ensures
            r.is_init() == value,
            r.is_locked() == self.is_locked(),
            r.is_parked() == self.is_parked(),
            r.is_poison() == self.is_poison(),
            r.owner() == self.owner(),
    {
        let r = self.with_bit(INIT_BIT, value);
        proof {
            lemma_flag_update(self.word(), 0b0001);
        }
        r
    }

    /// Reads the poison flag.
    pub fn poison(self) -> (r: bool)
        ensures
            r == self.is_poison(),
    {
        self.0 & POISON_BIT != 0
    }

    /// The word with the poison flag set to `value` and all else unchanged.
    #[must_use]
    pub fn with_poison(self, value: bool) -> (r: Self)
        ensures
            r.is_poison() == value,
            r.is_init() == self.is_init(),
            r.is_locked() == self.is_locked(),
            r.is_parked() == self.is_parked(),
            r.owner() == self.owner(),
    {
        let r = self.with_bit(POISON_BIT, value);
        proof {
            lemma_flag_update(self.word(), 0b1000);
        }
        r
    }

    /// Reads the locked flag.
    pub fn locked(self) -> (r: bool)
        ensures
            r == self.is_locked(),
    {
        self.0 & LOCKED_BIT != 0
    }

    /// The word with the locked flag set to `value` and all else unchanged.
    #[must_use]
    pub fn with_locked(self, value: bool) -> (r: Self)
        ensures
            r.is_locked() == value,
            r.is_init() == self.is_init(),
            r.is_parked() == self.is_parked(),
            r.is_poison() == self.is_poison(),
            r.owner() == self.owner(),
    {
        let r = self.with_bit(LOCKED_BIT, value);
        proof {
            lemma_flag_update(self.word(), 0b0010);
        }
        r
    }

    /// Reads the parked flag.
    pub fn parked(self) -> (r: bool)
        ensures
            r == self.is_parked(),
    {
        self.0 & PARKED_BIT != 0
    }

    /// The word with the parked flag set to `value` and all else unchanged.
    #[must_use]
    pub fn with_parked(self, value: bool) -> (r: Self)
        ensures
            r.is_parked() == value,
            r.is_init() == self.is_init(),
            r.is_locked() == self.is_locked(),
            r.is_poison() == self.is_poison(),
            r.owner() == self.owner(),
    {
        let r = self.with_bit(PARKED_BIT, value);
        proof {
            lemma_flag_update(self.word(), 0b0100);
        }
        r
    }

    /// The holder's identity bits as a `ThreadId`.
    pub fn thread_id(self) -> (r: ThreadId)
        ensures
            r.0 == self.owner(),
    {
        ThreadId(self.0 & THREAD_ID_MASK)
    }

    /// The word with the identity bits replaced by `id` and the flags
    /// unchanged. The identity must fit the packing (flag bits clear).
    #[must_use]
    pub fn with_thread_id(self, id: ThreadId) -> (r: Self)
        requires
            id.0 & 0b1111 == 0,
        ensures
            r.owner() == id.0,
            r.is_init() == self.is_init(),
            r.is_locked() == self.is_locked(),
            r.is_parked() == self.is_parked(),
            r.is_poison() == self.is_poison(),
    {
        let r = State((self.0 & !THREAD_ID_MASK) | id.0);
        proof {
            lemma_thread_id_update(self.word(), id.0);
        }
        r
    }
}

/// Setting or clearing one flag bit leaves every other flag and the identity
/// bits unchanged.
proof fn lemma_flag_update(x: usize, mask: usize)
    requires
        mask == 0b0001 || mask == 0b0010 || mask == 0b0100 || mask == 0b1000,
    ensures
        forall|other: usize|
            (other == 0b0001 || other == 0b0010 || other == 0b0100 || other == 0b1000)
                && other != mask ==> #[trigger] ((x | mask) & other) == (x & other),
        forall|other: usize|
            (other == 0b0001 || other == 0b0010 || other == 0b0100 || other == 0b1000)
                && other != mask ==> #[trigger] ((x & !mask) & other) == (x & other),
        ((x | mask) & !0b1111) == (x & !0b1111),
        ((x & !mask) & !0b1111) == (x & !0b1111),
        ((x | mask) & mask) != 0,
        ((x & !mask) & mask) == 0,
{
    assert(forall|o: usize|
        (o == 0b0001 || o == 0b0010 || o == 0b0100 || o == 0b1000) && o != mask
            ==> #[trigger] ((x | mask) & o) == (x & o)) by (bit_vector)
        requires mask == 0b0001 || mask == 0b0010 || mask == 0b0100 || mask == 0b1000;
    assert(forall|o: usize|
        (o == 0b0001 || o == 0b0010 || o == 0b0100 || o == 0b1000) && o != mask
            ==> #[trigger] ((x & !mask) & o) == (x & o)) by (bit_vector)
        requires mask == 0b0001 || mask == 0b0010 || mask == 0b0100 || mask == 0b1000;
    assert(((x | mask) & !0b1111) == (x & !0b1111) && ((x & !mask) & !0b1111) == (x & !0b1111)
        && ((x | mask) & mask) != 0 && ((x & !mask) & mask) == 0) by (bit_vector)
        requires mask == 0b0001 || mask == 0b0010 || mask == 0b0100 || mask == 0b1000;
}

/// Replacing the identity bits with a packable identity leaves each flag bit
/// unchanged and stores the identity exactly.
proof fn lemma_thread_id_update(x: usize, id: usize)
    requires
        id & 0b1111 == 0,
    ensures
        (((x & !!0b1111) | id) & !0b1111) == id,
        forall|other: usize|
            (other == 0b0001 || other == 0b0010 || other == 0b0100 || other == 0b1000)
                ==> #[trigger] (((x & !!0b1111) | id) & other) == (x & other),
{
    assert(id & 0b1111 == 0 ==> (((x & !!0b1111usize) | id) & !0b1111) == id) by (bit_vector);
    assert(forall|o: usize| id & 0b1111 == 0 && (o == 0b0001 || o == 0b0010 || o == 0b0100
        || o == 0b1000) ==> #[trigger] (((x & !!0b1111usize) | id) & o) == (x & o))
        by (bit_vector);
}

} // verus!
