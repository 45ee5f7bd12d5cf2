//! The call that hands a session over.

use crate::handoff::{E_FAIL, E_UNEXPECTED, S_OK};
use crate::host::Handle;
use crate::model::Model;
use crate::once::OnceSlot;
use crate::types::{
    bstr_round_trip, no_startup, owned_startup, startup_info_to_owned, text_units,
    TerminalStartupInfo, TerminalStartupInfoOwned,
};
use vstd::prelude::*;

verus! {

/// How the call goes on.
#[derive(Debug)]
pub enum Establish {
    /// Call what was registered, with this startup information.
    Invoke(TerminalStartupInfoOwned<String>),
    /// Return this result: nothing was registered.
    Return(i32),
}

/// Begin the call. The out parameters are cleared first, so that a caller that
/// ignores a failure finds no stale handles in them.
pub fn establish_pty_handoff<C>(
    callback: &OnceSlot<C>,
    in_handle: &mut Handle,
    out_handle: &mut Handle,
    startup_info: Option<&TerminalStartupInfo>,
) -> (r: Establish)
    ensures
        *final(in_handle) == 0,
        *final(out_handle) == 0,
        callback.value is None ==> r == Establish::Return(E_UNEXPECTED),
        callback.value is Some ==> {
            &&& r is Invoke
            &&& startup_info is None ==> r->Invoke_0.model() == no_startup()
            &&& startup_info is Some ==> r->Invoke_0.model() == owned_startup(*startup_info->0)
        },
{
    *in_handle = 0;
    *out_handle = 0;
    match callback.get() {
        None => Establish::Return(E_UNEXPECTED),
        Some(_) => {
            let startup: TerminalStartupInfoOwned<String> = match startup_info {
                None => TerminalStartupInfoOwned::<String>::default(),
                Some(info) => startup_info_to_owned(info),
            };
            Establish::Invoke(startup)
        },
    }
}

/// The result of the call, by whether what was registered succeeded.
pub fn handoff_result<T, E>(outcome: &Result<T, E>) -> (r: i32)
    ensures
        r == (if outcome is Ok {
            S_OK
        } else {
            E_FAIL
        }),
{
    match outcome {
        Ok(_) => S_OK,
        Err(_) => E_FAIL,
    }
}

/// The call clears both out parameters, and goes on exactly if something is
/// registered: with the startup information that came, or with none. Otherwise it
/// returns 0x8000ffff.
pub proof fn call_reaches_what_is_registered<C>(
    callback: &OnceSlot<C>,
    in_handle: &mut Handle,
    out_handle: &mut Handle,
    startup_info: Option<&TerminalStartupInfo>,
    r: Establish,
)
    requires
        call_ensures(
            establish_pty_handoff::<C>,
            (callback, in_handle, out_handle, startup_info),
            r,
        ),
    ensures
        *final(in_handle) == 0,
        *final(out_handle) == 0,
        r is Invoke <==> callback.value is Some,
        r matches Establish::Return(code) ==> code == 0x8000_ffff - 0x1_0000_0000,
        r matches Establish::Invoke(startup) ==> match startup_info {
            Some(s) => {
                &&& startup.title is Some
                &&& s.pszTitle is None ==> startup.title->0@.len() == 0
                &&& forall|t: Seq<char>|
                    s.pszTitle is Some && s.pszTitle->0@ == #[trigger] text_units(t)
                        ==> startup.title->0@ == t
                &&& startup.dw_flags == s.dwFlags
                &&& startup.show_window == s.wShowWindow
                &&& startup.position_x == s.dwX
                &&& startup.position_y == s.dwY
                &&& startup.width == (if s.dwXCountChars <= 0xffff {
                    s.dwXCountChars as int
                } else {
                    0
                })
                &&& startup.height == (if s.dwYCountChars <= 0xffff {
                    s.dwYCountChars as int
                } else {
                    0
                })
            },
            None => {
                &&& startup.title is None
                &&& startup.dw_flags == 0
                &&& startup.show_window == 0
                &&& startup.position_x == 0
                &&& startup.position_y == 0
                &&& startup.width == 0
                &&& startup.height == 0
            },
        },
{
    if r is Invoke {
        let startup = r->Invoke_0;
        assert(startup.model().title == startup.title.model());
        if startup_info is Some {
            let s = startup_info->0;
            assert(startup.model().title == Some(startup.title->0@));
            assert forall|t: Seq<char>|
                s.pszTitle is Some && s.pszTitle->0@ == #[trigger] text_units(t) implies
                startup.title->0@ == t by {
                bstr_round_trip(t);
            }
        }
    }
}

/// The call returns 0 exactly if what was registered succeeded, and 0x80004005
/// otherwise.
pub proof fn result_tells_success<T, E>(outcome: &Result<T, E>, r: i32)
    requires
        call_ensures(handoff_result::<T, E>, (outcome,), r),
    ensures
        outcome is Ok ==> r == 0,
        outcome is Err ==> r == 0x8000_4005 - 0x1_0000_0000,
{
}

} // verus!
