//! The object that receives the handoff.
//!
//! It answers for the handoff interface, the marker interface and `IUnknown`.
//! There is one object per process.

use crate::guid::{guid_eq, GUID};
use crate::handoff::{E_NOINTERFACE, E_POINTER, S_OK};
use crate::once::OnceSlot;
use vstd::prelude::*;

verus! {

/// The interfaces that the object has.
#[derive(Clone, Copy, Debug)]
pub struct InterfaceIds {
    /// `ITerminalHandoff3`.
    pub handoff3: GUID,
    /// `IDefaultTerminalMarker`.
    pub marker: GUID,
    /// `IUnknown`.
    pub unknown: GUID,
}

impl InterfaceIds {
    /// Whether an identifier is one of them.
    pub open spec fn has(self, iid: GUID) -> bool {
        iid@ == self.handoff3@ || iid@ == self.marker@ || iid@ == self.unknown@
    }
}

/// The object: where it lies, and how many references to it there are. It lives
/// as long as the process, whatever the count.
#[derive(Clone, Copy, Debug, PartialEq, Eq, Structural)]
pub struct Instance {
    pub address: usize,
    pub refcount: u32,
}

/// What a query for an interface answers.
#[derive(Clone, Copy, Debug, PartialEq, Eq, Structural)]
pub struct QueryAnswer {
    pub hresult: i32,
    /// What is written through the out parameter, if anything is; 0 is the null
    /// pointer.
    pub interface: Option<usize>,
}

/// The answer to a query, by the object's address, the identifier that was
/// passed, if any, and whether there is an out parameter.
pub open spec fn query_answer(
    address: usize,
    ids: InterfaceIds,
    iid: Option<GUID>,
    has_out: bool,
) -> QueryAnswer {
    match iid {
        Some(iid) => if !has_out {
            QueryAnswer { hresult: E_POINTER, interface: None }
        } else if ids.has(iid) {
            QueryAnswer { hresult: S_OK, interface: Some(address) }
        } else {
            QueryAnswer { hresult: E_NOINTERFACE, interface: Some(0) }
        },
        None => QueryAnswer { hresult: E_POINTER, interface: None },
    }
}

/// A count with one reference more.
pub open spec fn one_more(count: u32) -> u32 {
    if count == u32::MAX {
        0
    } else {
        (count + 1) as u32
    }
}

impl Instance {
    /// Take another reference. Answers with the new count, which wraps around
    /// after the largest.
    pub fn add_ref(&mut self) -> (r: u32)
        ensures
            *final(self) == (Instance { refcount: one_more(old(self).refcount), ..*old(self) }),
            r == one_more(old(self).refcount),
    {
        self.refcount = if self.refcount == u32::MAX {
            0
        } else {
            self.refcount + 1
        };
        self.refcount
    }

    /// Give a reference back. Answers with the new count, which is 0 at least;
    /// the count that is kept wraps around below 0.
    pub fn release(&mut self) -> (r: u32)
        ensures
            final(self).address == old(self).address,
            old(self).refcount > 0 ==> final(self).refcount == old(self).refcount - 1 && r
                == old(self).refcount - 1,
            old(self).refcount == 0 ==> final(self).refcount == u32::MAX && r == 0,
    {
        if self.refcount == 0 {
            self.refcount = u32::MAX;
            0
        } else {
            self.refcount = self.refcount - 1;
            self.refcount
        }
    }

    /// Answer a query for an interface. A reference is taken exactly if the
    /// object has it.
    pub fn query_interface(
        &mut self,
        ids: &InterfaceIds,
        iid: Option<GUID>,
        has_out: bool,
    ) -> (r: QueryAnswer)
        ensures
            r == query_answer(old(self).address, *ids, iid, has_out),
            *final(self) == (if r.hresult == S_OK {
                Instance { refcount: one_more(old(self).refcount), ..*old(self) }
            } else {
                *old(self)
            }),
    {
        match iid {
            None => QueryAnswer { hresult: E_POINTER, interface: None },
            Some(iid) => {
                if !has_out {
                    return QueryAnswer { hresult: E_POINTER, interface: None };
                }
                let is_handoff3: bool = guid_eq(&iid, &ids.handoff3);
                let is_marker: bool = guid_eq(&iid, &ids.marker);
                let is_unknown: bool = guid_eq(&iid, &ids.unknown);
                if is_handoff3 || is_marker || is_unknown {
                    let _ = self.add_ref();
                    QueryAnswer { hresult: S_OK, interface: Some(self.address) }
                } else {
                    QueryAnswer { hresult: E_NOINTERFACE, interface: Some(0) }
                }
            },
        }
    }
}

/// The address of the one object. The first call makes it, with one reference,
/// at the address given; later calls find it where it is.
pub fn take_singleton(slot: &mut OnceSlot<Instance>, address: usize) -> (r: usize)
    ensures
        *final(slot) == old(slot).offered(Instance { address, refcount: 1 }),
        final(slot).value is Some,
        r == final(slot).value->0.address,
{
    match &slot.value {
        Some(instance) => instance.address,
        None => {
            slot.value = Some(Instance { address, refcount: 1 });
            address
        },
    }
}

/// Every call finds the same object, wherever a new one would have been made.
pub proof fn singleton_stays(slot: OnceSlot<Instance>, first: usize, second: usize)
    ensures
        ({
            let once = slot.offered(Instance { address: first, refcount: 1 });
            let twice = once.offered(Instance { address: second, refcount: 1 });
            twice == once
        }),
{
}

// ---------------------------------------------------------------------------
// Laws
// ---------------------------------------------------------------------------

/// Whether two identifiers agree in every part.
pub open spec fn same_guid(a: GUID, b: GUID) -> bool {
    &&& a.Data1 == b.Data1
    &&& a.Data2 == b.Data2
    &&& a.Data3 == b.Data3
    &&& forall|i: int| 0 <= i < 8 ==> #[trigger] a.Data4@[i] == b.Data4@[i]
}

/// A query succeeds exactly for the three interfaces that the object has. It then
/// answers with the object itself and counts one reference more. For any other
/// interface it answers 0x80004002 with the null pointer, and where a pointer is
/// missing 0x80004003 without writing anything; the count stays then.
pub proof fn query_hands_out_the_object(
    object: &mut Instance,
    ids: &InterfaceIds,
    iid: Option<GUID>,
    has_out: bool,
    r: QueryAnswer,
)
    requires
        call_ensures(Instance::query_interface, (object, ids, iid, has_out), r),
    ensures
        final(object).address == old(object).address,
        r.hresult == 0 <==> has_out && iid is Some && (same_guid(iid->0, ids.handoff3) || same_guid(
            iid->0,
            ids.marker,
        ) || same_guid(iid->0, ids.unknown)),
        r.hresult == 0 ==> {
            &&& r.interface == Some(old(object).address)
            &&& old(object).refcount < u32::MAX ==> final(object).refcount == old(object).refcount
                + 1
            &&& old(object).refcount == u32::MAX ==> final(object).refcount == 0
        },
        r.hresult != 0 ==> final(object).refcount == old(object).refcount,
        !has_out || iid is None ==> r.hresult == 0x8000_4003 - 0x1_0000_0000 && r.interface is None,
        r.hresult != 0 && has_out && iid is Some ==> r.hresult == 0x8000_4002 - 0x1_0000_0000
            && r.interface == Some(0usize),
{
    if iid is Some {
        lemma_same_guid(iid->0, ids.handoff3);
        lemma_same_guid(iid->0, ids.marker);
        lemma_same_guid(iid->0, ids.unknown);
    }
}

proof fn lemma_same_guid(a: GUID, b: GUID)
    ensures
        same_guid(a, b) <==> a@ == b@,
{
    if same_guid(a, b) {
        assert(a@ =~= b@);
    }
}

/// Two identifiers are the same exactly if they agree in every part.
pub proof fn equality_looks_at_every_part(a: &GUID, b: &GUID, r: bool)
    requires
        call_ensures(guid_eq, (a, b), r),
    ensures
        r <==> same_guid(*a, *b),
{
    lemma_same_guid(*a, *b);
}

/// Giving a reference back undoes taking one, whatever the count, and each call
/// answers with the count that it leaves.
pub proof fn release_undoes_add_ref(
    first: &mut Instance,
    second: &mut Instance,
    taken: u32,
    left: u32,
)
    requires
        call_ensures(Instance::add_ref, (first,), taken),
        *old(second) == *final(first),
        call_ensures(Instance::release, (second,), left),
    ensures
        taken == final(first).refcount,
        old(first).refcount < u32::MAX ==> taken == old(first).refcount + 1,
        old(first).refcount == u32::MAX ==> taken == 0,
        final(second).refcount == old(first).refcount,
        final(second).address == old(first).address,
        old(second).refcount > 0 ==> left == final(second).refcount,
        old(second).refcount == 0 ==> left == 0,
{
}

/// There is one object: the first call makes it where it is told to, with one
/// reference, and every later call finds it there.
pub proof fn object_is_made_once(
    first: &mut OnceSlot<Instance>,
    second: &mut OnceSlot<Instance>,
    a: usize,
    b: usize,
    r: usize,
    s: usize,
)
    requires
        old(first).value is None,
        call_ensures(take_singleton, (first, a), r),
        *old(second) == *final(first),
        call_ensures(take_singleton, (second, b), s),
    ensures
        r == a,
        s == a,
        final(second).value is Some,
        final(second).value->0.address == a,
        final(second).value->0.refcount == 1,
{
}

} // verus!
