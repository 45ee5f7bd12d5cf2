//! The COM class that Windows calls to hand a new terminal session over.

use crate::once::OnceSlot;
use vstd::prelude::*;

pub mod establish;
pub mod instance;

verus! {

/// Success.
pub const S_OK: i32 = 0;

/// `E_NOINTERFACE`, 0x80004002.
pub const E_NOINTERFACE: i32 = -0x7fff_bffe;

/// `E_POINTER`, 0x80004003.
pub const E_POINTER: i32 = -0x7fff_bffd;

/// `E_FAIL`, 0x80004005.
pub const E_FAIL: i32 = -0x7fff_bffb;

/// `E_UNEXPECTED`, 0x8000ffff.
pub const E_UNEXPECTED: i32 = -0x7fff_0001;

/// Register what handles a handoff. Only the first registration counts; a later
/// one is handed back.
pub fn set_callback<C>(slot: &mut OnceSlot<C>, callback: C) -> (r: Result<(), C>)
    ensures
        *final(slot) == old(slot).offered(callback),
        old(slot).value is None ==> r is Ok,
        old(slot).value is Some ==> r == Err::<(), C>(callback),
{
    slot.set(callback)
}

/// The first registration counts and every later one is handed back, so that a
/// session is handed to one place only.
pub proof fn first_registration_counts<C>(
    first: &mut OnceSlot<C>,
    second: &mut OnceSlot<C>,
    v: C,
    w: C,
    r: Result<(), C>,
    s: Result<(), C>,
)
    requires
        old(first).value is None,
        call_ensures(set_callback::<C>, (first, v), r),
        *old(second) == *final(first),
        call_ensures(set_callback::<C>, (second, w), s),
    ensures
        r is Ok,
        s == Err::<(), C>(w),
        final(second).value == Some(v),
{
}

} // verus!
