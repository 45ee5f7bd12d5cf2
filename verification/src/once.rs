//! A slot that is written at most once.

use vstd::prelude::*;

verus! {

/// A value that is set once and then kept.
#[derive(Debug)]
pub struct OnceSlot<T> {
    pub value: Option<T>,
}

impl<T> OnceSlot<T> {
    /// What the slot holds after `v` was offered to it.
    pub open spec fn offered(self, v: T) -> OnceSlot<T> {
        if self.value is None {
            OnceSlot { value: Some(v) }
        } else {
            self
        }
    }

    /// An empty slot.
    pub fn new() -> (r: Self)
        ensures
            r.value is None,
    {
        OnceSlot { value: None }
    }

    /// Store `v` if the slot is empty; hand it back otherwise.
    pub fn set(&mut self, v: T) -> (r: Result<(), T>)
        ensures
            *final(self) == old(self).offered(v),
            old(self).value is None ==> r is Ok,
            old(self).value is Some ==> r == Err::<(), T>(v),
    {
        if self.value.is_some() {
            return Err(v);
        }
        self.value = Some(v);
        Ok(())
    }

    /// What the slot holds.
    pub fn get(&self) -> (r: Option<&T>)
        ensures
            r is Some == self.value is Some,
            r is Some ==> *r->0 == self.value->0,
    {
        match &self.value {
            Some(v) => Some(v),
            None => None,
        }
    }
}

/// The first value offered to an empty slot stays, whatever is offered later.
pub proof fn first_offer_stays<T>(slot: OnceSlot<T>, first: T, later: T)
    requires
        slot.value is None,
    ensures
        slot.offered(first).offered(later).value == Some(first),
{
}

/// A slot is empty at first, takes the first value, hands every later one back,
/// and gives out the first.
pub proof fn slot_takes_one_value<T>(
    fresh: OnceSlot<T>,
    first: &mut OnceSlot<T>,
    second: &mut OnceSlot<T>,
    v: T,
    w: T,
    r: Result<(), T>,
    s: Result<(), T>,
    before: Option<&T>,
    after: Option<&T>,
)
    requires
        call_ensures(OnceSlot::<T>::new, (), fresh),
        *old(first) == fresh,
        call_ensures(OnceSlot::<T>::get, (&fresh,), before),
        call_ensures(OnceSlot::<T>::set, (first, v), r),
        *old(second) == *final(first),
        call_ensures(OnceSlot::<T>::set, (second, w), s),
        call_ensures(OnceSlot::<T>::get, (&*final(second),), after),
    ensures
        before is None,
        r is Ok,
        s == Err::<(), T>(w),
        after is Some && *after->0 == v,
{
}

} // verus!
