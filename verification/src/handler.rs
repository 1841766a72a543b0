//! Callback adapters: a caller's closure made into something the native
//! runtime can invoke through a callback interface.
//!
//! To the runtime an adapter is an interface instance like any other. Its
//! reference count is its own, a [`ComObject`] that starts with the adapter
//! and is kept beside it, because the runtime takes and gives back
//! references on the adapter directly. The closure is called through a
//! shared reference and must be `Send` and `Sync`, as the runtime may invoke
//! the adapter from any of its execution contexts.

use crate::cominterfaces::{ComIid, IAgileObject};
use crate::comobject::{ComObject, ObjectState};
use crate::guid::Guid;
use crate::result::{spec_status_of, status_of, Error, HRESULT};
use std::marker::PhantomData;
use vstd::prelude::*;

verus! {

/// A closure wrapped for one callback interface.
pub struct CallbackAdapter<A, F: Fn(A) -> Result<(), Error> + Send + Sync> {
    iid: Guid,
    callback: F,
    args: PhantomData<A>,
}

impl<A, F: Fn(A) -> Result<(), Error> + Send + Sync> CallbackAdapter<A, F> {
    /// The identifier of the callback interface that the adapter stands
    /// for.
    pub closed spec fn spec_iid(&self) -> Guid {
        self.iid
    }

    /// The closure that the adapter wraps.
    pub closed spec fn callback(&self) -> F {
        self.callback
    }

    /// The state in which an adapter starts its life as an instance at
    /// `addr`: it answers for its callback interface, for the agile marker
    /// and, as every instance does, for the root interface, and it holds the
    /// one reference of whoever made it.
    pub open spec fn spec_instance(&self, addr: usize) -> ObjectState {
        ObjectState { addr: addr, iids: seq![IAgileObject::spec_iid(), self.spec_iid()], refs: 1 }
    }

    /// Wraps `callback` for the callback interface `iid`.
    pub fn new(iid: Guid, callback: F) -> (adapter: Self)
        ensures
            adapter.spec_iid() == iid,
            adapter.callback() == callback,
    {
        CallbackAdapter { iid, callback, args: PhantomData }
    }

    /// Returns the identifier of the callback interface that the adapter
    /// stands for.
    pub fn iid(&self) -> (iid: Guid)
        ensures
            iid == self.spec_iid(),
    {
        self.iid
    }

    /// Makes the reference count with which the adapter starts its life as
    /// an instance at `addr`.
    pub fn instance(&self, addr: usize) -> (object: ComObject)
        requires
            addr != 0,
        ensures
            object@ == self.spec_instance(addr),
    {
        let mut iids: Vec<Guid> = Vec::new();
        iids.push(*IAgileObject::iid());
        iids.push(self.iid);
        proof {
            assert(iids@ =~= seq![IAgileObject::spec_iid(), self.spec_iid()]);
        }
        ComObject::new(addr, iids)
    }

    /// The slot of the callback interface: calls the closure on `args`,
    /// once, and returns the status that reports what the closure returned,
    /// `S_OK` for success and the status of the error for a failure.
    pub fn invoke(&self, args: A) -> (status: HRESULT)
        requires
            call_requires(self.callback(), (args,)),
        ensures
            exists|outcome: Result<(), Error>|
                call_ensures(self.callback(), (args,), outcome) && status == spec_status_of(
                    outcome,
                ),
    {
        let outcome = (self.callback)(args);
        status_of(&outcome)
    }
}

} // verus!
