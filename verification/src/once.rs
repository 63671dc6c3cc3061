//! The entry/guard wrapper: pairs a raw backend with a value slot and turns
//! it into a poison-aware occupied-or-vacant cell. A caller that finds the
//! slot vacant becomes the writer and must resolve it: commit a value with
//! `init`, or abandon the attempt with `abandon`, which poisons the slot (an
//! abandoned writer is a broken initializer contract, not a silent retry).

use vstd::prelude::*;
use crate::error::{LockError, PoisonError};
use crate::raw::{BlockingRawOnce, RawModel, RawOnce, RawOnceState};
use vstd::pervasive::unreached;

verus! {

/// Abstract state of a `Once`: empty, held by a writer, committed with a
/// value, or terminally poisoned.
pub enum OnceModel<T> {
    Uninit,
    Locked,
    Init(T),
    Poison,
}

/// The slot after a forcing attempt that would commit `v` were the slot
/// still empty: only an empty slot takes the value; a committed, held or
/// poisoned slot is unchanged.
pub open spec fn spec_force<T>(m: OnceModel<T>, v: T) -> OnceModel<T> {
    match m {
        OnceModel::Uninit => OnceModel::Init(v),
        _ => m,
    }
}

/// The slot and the extracted value after `into_inner`: a committed value
/// comes out and the slot is poisoned against reuse; any other state yields
/// nothing and stands untouched.
pub open spec fn spec_into_inner<T>(m: OnceModel<T>) -> (OnceModel<T>, Option<T>) {
    match m {
        OnceModel::Init(v) => (OnceModel::Poison, Some(v)),
        _ => (m, None),
    }
}

/// Exactly one forcing commits: once a slot has been forced with `v1`, a
/// later forcing with any other value observes `v1` and changes nothing, so
/// every caller of a forcing operation sees the same committed value.
pub proof fn lemma_force_commits_once<T>(v1: T, v2: T)
    ensures
        spec_force(spec_force(OnceModel::<T>::Uninit, v1), v2) == OnceModel::<T>::Init(v1),
{
}

/// Poison is terminal: no forcing and no extraction ever leaves it, so
/// every later operation on a poisoned slot fails identically.
pub proof fn lemma_poison_permanent<T>(v: T)
    ensures
        spec_force(OnceModel::<T>::Poison, v) is Poison,
        spec_into_inner(OnceModel::<T>::Poison).0 is Poison,
        spec_into_inner(OnceModel::<T>::Poison).1 is None,
{
}

/// A committed value is permanent under forcing; only extraction removes
/// it, and that poisons the slot rather than emptying it.
pub proof fn lemma_init_permanent<T>(v: T, w: T)
    ensures
        spec_force(OnceModel::<T>::Init(v), w) == OnceModel::<T>::Init(v),
        spec_into_inner(OnceModel::<T>::Init(v)) == (OnceModel::<T>::Poison, Some(v)),
{
}

/// What a lock attempt found: a committed value is readable, or the caller
/// has become the writer and must now resolve the slot.
#[derive(Copy, Clone, Eq, PartialEq, Structural, Debug)]
pub enum OnceEntry {
    Occupied,
    Vacant,
}

/// A write-at-most-once value slot over a raw backend `R`.
pub struct Once<R, T> {
    raw: R,
    value: Option<T>,
}

impl<R: RawOnce, T> Once<R, T> {
    /// The value slot holds a value exactly when the backend reports `Init`.
    pub closed spec fn wf(&self) -> bool {
        self.value is Some <==> self.raw.model() is Init
    }

    /// The abstract state of the slot.
    pub closed spec fn model(&self) -> OnceModel<T> {
        match self.raw.model() {
            RawModel::Uninit => OnceModel::Uninit,
            RawModel::Locked => OnceModel::Locked,
            RawModel::Init => OnceModel::Init(self.value->0),
            RawModel::Poison => OnceModel::Poison,
        }
    }

    /// An empty slot: no value, no writer.
    pub fn new() -> (r: Self)
        ensures
            r.wf(),
            r.model() is Uninit,
    {
        Once { raw: R::uninit(), value: None }
    }

    /// A slot that is terminally poisoned from the start.
    pub fn poisoned() -> (r: Self)
        ensures
            r.wf(),
            r.model() is Poison,
    {
        Once { raw: R::poisoned(), value: None }
    }

    /// A slot pre-seeded with a committed value: reads succeed immediately
    /// and no initializer ever runs.
    pub fn from_value(value: T) -> (r: Self)
        ensures
            r.wf(),
            r.model() == OnceModel::Init(value),
    {
        Once { raw: R::initialized(), value: Some(value) }
    }

    /// Non-suspending attempt to read or become the writer. `Ok(None)` means
    /// another writer holds the slot (the attempt would block).
    pub fn try_lock_checked(&mut self) -> (r: Result<Option<OnceEntry>, PoisonError>)
        requires
            old(self).wf(),
        ensures
            final (self).wf(),
            match old(self).model() {
                OnceModel::Uninit => r matches Ok(Some(OnceEntry::Vacant))
                    && final (self).model() is Locked,
                OnceModel::Locked => r matches Ok(None) && final (self).model() is Locked,
                OnceModel::Init(v) => r matches Ok(Some(OnceEntry::Occupied))
                    && final (self).model() == OnceModel::Init(v),
                OnceModel::Poison => r matches Err(PoisonError)
                    && final (self).model() is Poison,
            },
    {
        match self.raw.try_lock_checked() {
            Ok(Some(RawOnceState::Vacant)) => Ok(Some(OnceEntry::Vacant)),
            Ok(Some(RawOnceState::Occupied)) => Ok(Some(OnceEntry::Occupied)),
            Ok(None) => Ok(None),
            Err(e) => Err(e),
        }
    }

    /// `try_lock_checked` for callers that treat poison as a programming
    /// error; the poisoned input is excluded rather than reported.
    pub fn try_lock(&mut self) -> (r: Option<OnceEntry>)
        requires
            old(self).wf(),
            !(old(self).model() is Poison),
        ensures
            final (self).wf(),
            match old(self).model() {
                OnceModel::Uninit => r == Some(OnceEntry::Vacant)
                    && final (self).model() is Locked,
                OnceModel::Locked => r is None && final (self).model() is Locked,
                OnceModel::Init(v) => r == Some(OnceEntry::Occupied)
                    && final (self).model() == OnceModel::Init(v),
                OnceModel::Poison => false,
            },
    {
        match self.try_lock_checked() {
            Ok(e) => e,
            Err(_e) => None,
        }
    }

    /// Commit a value: performed by the writer; the slot is readable forever
    /// after.
    pub fn init(&mut self, value: T) -> (r: &T)
        requires
            old(self).wf(),
            old(self).model() is Locked,
        ensures
            final (self).wf(),
            final (self).model() == OnceModel::Init(value),
            *r == value,
    {
        self.value = Some(value);
        self.raw.unlock_init();
        match &self.value {
            Some(v) => v,
            None => unreached(),
        }
    }

    /// The writer gives the slot up without committing: the slot is
    /// poisoned, exactly as if the initializer had failed.
    pub fn abandon(&mut self)
        requires
            old(self).wf(),
            old(self).model() is Locked,
        ensures
            final (self).wf(),
            final (self).model() is Poison,
    {
        self.raw.unlock_poison();
        self.value = None;
    }

    /// Read-only, non-suspending probe: the committed value if there is one,
    /// `None` while empty or held by a writer, the poison error otherwise.
    pub fn try_get_checked(&self) -> (r: Result<Option<&T>, PoisonError>)
        requires
            self.wf(),
        ensures
            match self.model() {
                OnceModel::Uninit => r matches Ok(None),
                OnceModel::Locked => r matches Ok(None),
                OnceModel::Init(v) => r matches Ok(Some(x)) && *x == v,
                OnceModel::Poison => r matches Err(PoisonError),
            },
    {
        match self.raw.try_get_checked() {
            Ok(RawOnceState::Occupied) => match &self.value {
                Some(v) => Ok(Some(v)),
                None => unreached(),
            },
            Ok(RawOnceState::Vacant) => Ok(None),
            Err(e) => Err(e),
        }
    }

    /// `try_get_checked` for callers that treat poison as a programming
    /// error; the poisoned input is excluded rather than reported.
    pub fn try_get(&self) -> (r: Option<&T>)
        requires
            self.wf(),
            !(self.model() is Poison),
        ensures
            match self.model() {
                OnceModel::Init(v) => r matches Some(x) && *x == v,
                _ => r is None,
            },
    {
        match self.try_get_checked() {
            Ok(r) => r,
            Err(_e) => None,
        }
    }

    /// Extract the committed value: returns it and poisons the slot against
    /// reuse; on a slot with no committed value, returns nothing and leaves
    /// the state untouched.
    pub fn into_inner(&mut self) -> (r: Option<T>)
        requires
            old(self).wf(),
        ensures
            final (self).wf(),
            (final (self).model(), r) == spec_into_inner(old(self).model()),
            match old(self).model() {
                OnceModel::Init(v) => r == Some(v) && final (self).model() is Poison,
                OnceModel::Uninit => r is None && final (self).model() is Uninit,
                OnceModel::Locked => r is None && final (self).model() is Locked,
                OnceModel::Poison => r is None && final (self).model() is Poison,
            },
    {
        match self.raw.try_get_checked() {
            Ok(RawOnceState::Occupied) => {
                let v = self.value.take();
                self.raw = R::poisoned();
                v
            },
            _ => None,
        }
    }
}

impl<R: RawOnce, T: Clone> Clone for Once<R, T> {
    /// Snapshot the slot: a committed value clones to a committed clone of
    /// that value, an empty or writer-held slot clones empty, a poisoned
    /// slot clones poisoned.
    fn clone(&self) -> (res: Self)
        ensures
            res.wf(),
            self.wf() ==> match self.model() {
                OnceModel::Init(v) => (res.model() matches OnceModel::Init(w)
                    && vstd::pervasive::cloned::<T>(v, w)),
                OnceModel::Uninit => res.model() is Uninit,
                OnceModel::Locked => res.model() is Uninit,
                OnceModel::Poison => res.model() is Poison,
            },
    {
        match self.raw.try_get_checked() {
            Ok(RawOnceState::Occupied) => match &self.value {
                Some(v) => Once::from_value(v.clone()),
                // Never reached on a well-formed slot; `clone` takes no
                // precondition, so stay total.
                None => Once::new(),
            },
            Ok(RawOnceState::Vacant) => Once::new(),
            Err(_e) => Once::poisoned(),
        }
    }
}

impl<R: RawOnce, T> Default for Once<R, T> {
    /// The default slot is empty.
    fn default() -> (r: Self)
        ensures
            r.wf(),
            r.model() is Uninit,
    {
        Once::new()
    }
}

impl<R: BlockingRawOnce, T> Once<R, T> {
    /// Read or become the writer, reporting poison and reentry as errors.
    pub fn lock_checked(&mut self) -> (r: Result<OnceEntry, LockError>)
        requires
            old(self).wf(),
        ensures
            final (self).wf(),
            match old(self).model() {
                OnceModel::Uninit => r matches Ok(OnceEntry::Vacant)
                    && final (self).model() is Locked,
                OnceModel::Locked => r matches Err(LockError::CycleError)
                    && final (self).model() is Locked,
                OnceModel::Init(v) => r matches Ok(OnceEntry::Occupied)
                    && final (self).model() == OnceModel::Init(v),
                OnceModel::Poison => r matches Err(LockError::PoisonError)
                    && final (self).model() is Poison,
            },
    {
        match self.raw.lock_checked() {
            Ok(RawOnceState::Vacant) => Ok(OnceEntry::Vacant),
            Ok(RawOnceState::Occupied) => Ok(OnceEntry::Occupied),
            Err(e) => Err(e),
        }
    }

    /// `lock_checked` for callers that treat failure as a programming error;
    /// the failing inputs are excluded rather than reported.
    pub fn lock(&mut self) -> (r: OnceEntry)
        requires
            old(self).wf(),
            !(old(self).model() is Poison),
            !(old(self).model() is Locked),
        ensures
            final (self).wf(),
            match old(self).model() {
                OnceModel::Uninit => r == OnceEntry::Vacant && final (self).model() is Locked,
                OnceModel::Init(v) => r == OnceEntry::Occupied
                    && final (self).model() == OnceModel::Init(v),
                _ => false,
            },
    {
        match self.lock_checked() {
            Ok(e) => e,
            Err(_e) => unreached(),
        }
    }

    /// Resolve an entry obtained from a lock: a vacant entry runs the
    /// initializer exactly once and commits its result; an occupied entry
    /// yields the committed value and runs nothing.
    pub fn or_init<F: FnOnce() -> T>(&mut self, entry: OnceEntry, init: F) -> (r: &T)
        requires
            old(self).wf(),
            entry == OnceEntry::Vacant <==> old(self).model() is Locked,
            entry == OnceEntry::Occupied <==> old(self).model() is Init,
            entry == OnceEntry::Vacant ==> call_requires(init, ()),
        ensures
            final (self).wf(),
            match old(self).model() {
                OnceModel::Locked => call_ensures(init, (), *r)
                    && final (self).model() == OnceModel::Init(*r),
                OnceModel::Init(x) => *r == x && final (self).model() == OnceModel::Init(x),
                _ => false,
            },
    {
        match entry {
            OnceEntry::Occupied => match self.try_get() {
                Some(v) => v,
                None => unreached(),
            },
            OnceEntry::Vacant => {
                let v = init();
                self.init(v)
            },
        }
    }

    /// Read the committed value, or run the initializer exactly once and
    /// commit its result. Reports poison, and reentry by the slot's own
    /// writer, as errors.
    pub fn get_or_init_checked<F: FnOnce() -> T>(&mut self, init: F) -> (r: Result<
        &T,
        LockError,
    >)
        requires
            old(self).wf(),
            old(self).model() is Uninit ==> call_requires(init, ()),
        ensures
            final (self).wf(),
            match old(self).model() {
                OnceModel::Uninit => r matches Ok(v) && call_ensures(init, (), *v)
                    && final (self).model() == OnceModel::Init(*v),
                OnceModel::Locked => r matches Err(LockError::CycleError)
                    && final (self).model() is Locked,
                OnceModel::Init(x) => r matches Ok(v) && *v == x
                    && final (self).model() == OnceModel::Init(x),
                OnceModel::Poison => r matches Err(LockError::PoisonError)
                    && final (self).model() is Poison,
            },
    {
        match self.lock_checked() {
            Ok(OnceEntry::Occupied) => match &self.value {
                Some(v) => Ok(v),
                None => unreached(),
            },
            Ok(OnceEntry::Vacant) => {
                let v = init();
                Ok(self.init(v))
            },
            Err(e) => Err(e),
        }
    }

    /// `get_or_init_checked` for callers that treat failure as a programming
    /// error; the failing inputs are excluded rather than reported.
    pub fn get_or_init<F: FnOnce() -> T>(&mut self, init: F) -> (r: &T)
        requires
            old(self).wf(),
            !(old(self).model() is Poison),
            !(old(self).model() is Locked),
            old(self).model() is Uninit ==> call_requires(init, ()),
        ensures
            final (self).wf(),
            final (self).model() == spec_force(old(self).model(), *r),
            match old(self).model() {
                OnceModel::Uninit => call_ensures(init, (), *r)
                    && final (self).model() == OnceModel::Init(*r),
                OnceModel::Init(x) => *r == x && final (self).model() == OnceModel::Init(x),
                _ => false,
            },
    {
        match self.get_or_init_checked(init) {
            Ok(v) => v,
            Err(_e) => unreached(),
        }
    }

    /// Read-only probe with the lock-style error type.
    pub fn get_checked(&self) -> (r: Result<Option<&T>, LockError>)
        requires
            self.wf(),
        ensures
            match self.model() {
                OnceModel::Uninit => r matches Ok(None),
                OnceModel::Locked => r matches Ok(None),
                OnceModel::Init(v) => r matches Ok(Some(x)) && *x == v,
                OnceModel::Poison => r matches Err(LockError::PoisonError),
            },
    {
        match self.raw.get_checked() {
            Ok(RawOnceState::Occupied) => match &self.value {
                Some(v) => Ok(Some(v)),
                None => unreached(),
            },
            Ok(RawOnceState::Vacant) => Ok(None),
            Err(_e) => Err(LockError::PoisonError),
        }
    }

    /// `get_checked` for callers that treat poison as a programming error;
    /// the poisoned input is excluded rather than reported.
    pub fn get(&self) -> (r: Option<&T>)
        requires
            self.wf(),
            !(self.model() is Poison),
        ensures
            match self.model() {
                OnceModel::Init(v) => r matches Some(x) && *x == v,
                _ => r is None,
            },
    {
        match self.get_checked() {
            Ok(r) => r,
            Err(_e) => None,
        }
    }
}

} // verus!
