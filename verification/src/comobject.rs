//! The instance side of the reference-counting protocol.
//!
//! Whatever else an interface instance does, it answers three calls: a query
//! for one of its interfaces, a request to take one more reference on it,
//! and a request to give one back. [`ComObject`] keeps the state that those
//! three calls read and change, and [`ObjectState`] is that state as the
//! contracts of this crate speak of it.

use crate::cominterfaces::{ComIid, IUnknown};
use crate::guid::Guid;
use crate::result::{E_NOINTERFACE, HRESULT, S_OK};
use vstd::prelude::*;

verus! {

/// The state of an interface instance, as its callers can tell it.
pub struct ObjectState {
    /// Where the instance lives; what a handle to it holds.
    pub addr: usize,
    /// The interfaces that the instance was made with. It answers for these
    /// and for the root interface.
    pub iids: Seq<Guid>,
    /// How many references are held on the instance. At zero it is
    /// destroyed.
    pub refs: nat,
}

impl ObjectState {
    /// Whether the instance still exists.
    pub open spec fn alive(self) -> bool {
        self.refs > 0
    }

    /// Whether the instance answers a query for `iid`.
    pub open spec fn implements(self, iid: Guid) -> bool {
        iid == IUnknown::spec_iid() || self.iids.contains(iid)
    }

    /// The instance with one more reference on it.
    pub open spec fn add_ref(self) -> ObjectState {
        ObjectState { refs: self.refs + 1, ..self }
    }

    /// The instance with one reference given back.
    pub open spec fn release(self) -> ObjectState {
        ObjectState { refs: (self.refs - 1) as nat, ..self }
    }

    /// The status with which the instance answers a query for `iid`.
    pub open spec fn query_status(self, iid: Guid) -> HRESULT {
        if self.implements(iid) {
            S_OK
        } else {
            E_NOINTERFACE
        }
    }

    /// The pointer with which the instance answers a query for `iid`: its
    /// own address, or null where it has no such interface.
    pub open spec fn query_pointer(self, iid: Guid) -> usize {
        if self.implements(iid) {
            self.addr
        } else {
            0
        }
    }

    /// The instance after a query for `iid`: a query that succeeds takes a
    /// reference for the pointer it hands out, one that fails changes
    /// nothing.
    pub open spec fn query(self, iid: Guid) -> ObjectState {
        if self.implements(iid) {
            self.add_ref()
        } else {
            self
        }
    }

    /// The instance after `n` references were taken on it, one by one.
    pub open spec fn add_refs(self, n: nat) -> ObjectState
        decreases n,
    {
        if n == 0 {
            self
        } else {
            self.add_ref().add_refs((n - 1) as nat)
        }
    }

    /// The instance after `n` references were given back, one by one.
    pub open spec fn releases(self, n: nat) -> ObjectState
        decreases n,
    {
        if n == 0 {
            self
        } else {
            self.release().releases((n - 1) as nat)
        }
    }
}

/// An interface instance reduced to what its three base slots read and
/// change: its address, the interfaces it answers for, and its reference
/// count.
///
/// It starts with one reference, that of whoever made it, and is destroyed
/// when its last reference is given back.
#[derive(Debug)]
pub struct ComObject {
    addr: usize,
    iids: Vec<Guid>,
    refs: u32,
}

impl View for ComObject {
    type V = ObjectState;

    closed spec fn view(&self) -> ObjectState {
        ObjectState { addr: self.addr, iids: self.iids@, refs: self.refs as nat }
    }
}

impl ComObject {
    #[verifier::type_invariant]
    spec fn inv(self) -> bool {
        self.addr != 0
    }

    /// Makes an instance at `addr` that answers for the interfaces `iids`,
    /// with the one reference that its maker holds.
    pub fn new(addr: usize, iids: Vec<Guid>) -> (obj: ComObject)
        requires
            addr != 0,
        ensures
            obj@ == (ObjectState { addr: addr, iids: iids@, refs: 1 }),
    {
        ComObject { addr, iids, refs: 1 }
    }

    /// Where the instance lives. Never null.
    pub fn addr(&self) -> (a: usize)
        ensures
            a == self@.addr,
            a != 0,
    {
        proof {
            use_type_invariant(self);
        }
        self.addr
    }

    /// How many references are held on the instance.
    pub fn ref_count(&self) -> (n: u32)
        ensures
            n == self@.refs,
    {
        self.refs
    }

    /// Whether the last reference was given back.
    pub fn is_destroyed(&self) -> (d: bool)
        ensures
            d == !self@.alive(),
    {
        self.refs == 0
    }

    /// Whether the instance answers a query for `iid`.
    pub fn implements(&self, iid: &Guid) -> (r: bool)
        ensures
            r == self@.implements(*iid),
    {
        if *iid == *IUnknown::iid() {
            return true;
        }
        let mut i: usize = 0;
        while i < self.iids.len()
            invariant
                i <= self.iids.len(),
                forall|j: int| 0 <= j < i ==> self.iids@[j] != *iid,
            decreases self.iids.len() - i,
        {
            if self.iids[i] == *iid {
                return true;
            }
            i += 1;
        }
        false
    }

    /// The first slot: answers a query for the interface `iid`.
    ///
    /// Where the instance has that interface, it takes a reference for the
    /// caller and answers `S_OK` with its address. Where it has not, it
    /// answers `E_NOINTERFACE` with a null pointer and stays as it was.
    pub fn query_interface(&mut self, iid: &Guid) -> (answer: (HRESULT, usize))
        requires
            old(self)@.alive(),
            old(self)@.implements(*iid) ==> old(self)@.refs < u32::MAX,
        ensures
            final(self)@ == old(self)@.query(*iid),
            answer.0 == old(self)@.query_status(*iid),
            answer.1 == old(self)@.query_pointer(*iid),
    {
        proof {
            use_type_invariant(&*self);
        }
        if self.implements(iid) {
            self.refs = self.refs + 1;
            (S_OK, self.addr)
        } else {
            (E_NOINTERFACE, 0)
        }
    }

    /// The second slot: takes one more reference and returns the new count.
    pub fn add_ref(&mut self) -> (n: u32)
        requires
            old(self)@.alive(),
            old(self)@.refs < u32::MAX,
        ensures
            final(self)@ == old(self)@.add_ref(),
            n == final(self)@.refs,
    {
        proof {
            use_type_invariant(&*self);
        }
        self.refs = self.refs + 1;
        self.refs
    }

    /// The third slot: gives one reference back and returns the new count.
    /// At zero the instance is destroyed.
    pub fn release(&mut self) -> (n: u32)
        requires
            old(self)@.alive(),
        ensures
            final(self)@ == old(self)@.release(),
            n == final(self)@.refs,
    {
        proof {
            use_type_invariant(&*self);
        }
        self.refs = self.refs - 1;
        self.refs
    }
}

/// Taking `n` references on an instance adds `n` to its count and changes
/// nothing else.
pub proof fn lemma_add_refs(s: ObjectState, n: nat)
    ensures
        s.add_refs(n) == (ObjectState { refs: s.refs + n, ..s }),
    decreases n,
{
    if n > 0 {
        lemma_add_refs(s.add_ref(), (n - 1) as nat);
    }
}

/// Giving back `n` of the references held on an instance takes `n` off its
/// count and changes nothing else.
pub proof fn lemma_releases(s: ObjectState, n: nat)
    requires
        n <= s.refs,
    ensures
        s.releases(n) == (ObjectState { refs: (s.refs - n) as nat, ..s }),
    decreases n,
{
    if n > 0 {
        lemma_releases(s.release(), (n - 1) as nat);
    }
}

/// After `n` references were taken on an instance and then `n` given back,
/// the instance is as it was before: nothing has leaked. On the way its
/// count never falls below what it was at the start, so an instance that
/// was alive then is not destroyed in between.
pub proof fn lemma_add_refs_then_releases(s: ObjectState, n: nat)
    ensures
        s.add_refs(n).releases(n) == s,
        forall|k: nat| k <= n ==> (#[trigger] s.add_refs(k)).refs == s.refs + k,
        forall|k: nat| k <= n ==> (#[trigger] s.add_refs(n).releases(k)).refs == s.refs + n - k,
        s.alive() ==> forall|k: nat| k <= n ==> (#[trigger] s.add_refs(k)).alive(),
        s.alive() ==> forall|k: nat| k <= n ==> (#[trigger] s.add_refs(n).releases(k)).alive(),
{
    lemma_add_refs(s, n);
    lemma_releases(s.add_refs(n), n);
    assert forall|k: nat| k <= n implies (#[trigger] s.add_refs(k)).refs == s.refs + k by {
        lemma_add_refs(s, k);
    }
    assert forall|k: nat| k <= n implies (#[trigger] s.add_refs(n).releases(k)).refs == s.refs + n
        - k by {
        lemma_releases(s.add_refs(n), k);
    }
}

} // verus!
