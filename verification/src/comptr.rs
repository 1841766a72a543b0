//! The owning handle.
//!
//! A [`ComPtr`] stands for one reference held on an interface instance,
//! seen through one interface of the instance. It keeps the address of the
//! instance, which is never null, and the interface as a type parameter.
//!
//! Making a copy of a handle takes a reference on the instance, releasing a
//! handle gives one back, and moving a handle leaves the count alone. A
//! handle therefore has no `Clone`: [`ComPtr::duplicate`] is the only way to
//! a second handle, and [`ComPtr::release`] consumes the handle it is called
//! on.

use crate::cominterfaces::{ComIid, ComInterface, Extends};
use crate::comobject::{ComObject, ObjectState};
use crate::guid::Guid;
use crate::result::{outcome, Error, E_NOINTERFACE, HRESULT, S_OK};
use std::marker::PhantomData;
use vstd::prelude::*;

verus! {

/// An owning handle to an interface instance, typed by the interface `T`
/// through which it reaches the instance.
#[derive(Debug)]
pub struct ComPtr<T: ComInterface> {
    addr: usize,
    interface: PhantomData<T>,
}

impl<T: ComInterface> ComPtr<T> {
    #[verifier::type_invariant]
    spec fn inv(self) -> bool {
        self.addr != 0
    }

    /// The address of the instance that the handle refers to.
    pub closed spec fn addr(&self) -> usize {
        self.addr
    }

    /// Whether the handle refers to the instance `object`.
    pub open spec fn points_to(&self, object: ObjectState) -> bool {
        self.addr() == object.addr
    }

    /// Wraps the raw pointer `addr` and with it takes over the reference
    /// that the pointer came with. No reference is added.
    pub fn wrap(addr: usize) -> (ptr: ComPtr<T>)
        requires
            addr != 0,
        ensures
            ptr.addr() == addr,
    {
        ComPtr { addr, interface: PhantomData }
    }

    /// The raw pointer behind the handle, through which the methods of `T`
    /// are called. It is never null.
    pub fn as_abi(&self) -> (addr: usize)
        ensures
            addr == self.addr(),
            addr != 0,
    {
        proof {
            use_type_invariant(self);
        }
        self.addr
    }

    /// Turns the handle into one to the base interface `Base`.
    ///
    /// Only the type changes: the new handle holds the same pointer and owns
    /// the same reference. As the instance is not among the arguments, it
    /// cannot be called and its count cannot change.
    pub fn upcast<Base>(self) -> (base: ComPtr<Base>) where Base: ComInterface, T: Extends<Base>
        ensures
            base.addr() == self.addr(),
    {
        proof {
            use_type_invariant(&self);
        }
        ComPtr { addr: self.addr, interface: PhantomData }
    }

    /// The outcome of a query for the interface `T`, given the status and
    /// the pointer that the instance answered with.
    ///
    /// With `S_OK` it is a handle that owns the reference behind `out`. Any
    /// other status becomes the error that stands for it, `NoSuchInterface`
    /// for `E_NOINTERFACE`.
    pub fn from_query(status: HRESULT, out: usize) -> (r: Result<ComPtr<T>, Error>)
        requires
            status == S_OK ==> out != 0,
        ensures
            status == S_OK ==> (r matches Ok(ptr) && ptr.addr() == out),
            status != S_OK ==> (r matches Err(e) && e == Error::spec_from_hresult(status)),
            status == E_NOINTERFACE ==> (r matches Err(e) && e == Error::NoSuchInterface),
    {
        match outcome(status, out) {
            Ok(addr) => Ok(ComPtr::wrap(addr)),
            Err(e) => Err(e),
        }
    }

    /// Asks `object`, the instance behind this handle, for its interface
    /// `Target`.
    ///
    /// Where the instance has that interface, the result is a new handle to
    /// it, and the instance holds one more reference, taken for that handle.
    /// Where it has not, the result is `NoSuchInterface` and the instance is
    /// as it was. This handle stays as it is either way.
    pub fn query<Target>(&self, object: &mut ComObject) -> (r: Result<ComPtr<Target>, Error>) where
        Target: ComInterface + ComIid,

        requires
            self.points_to(old(object)@),
            old(object)@.alive(),
            old(object)@.implements(Target::spec_iid()) ==> old(object)@.refs < u32::MAX,
        ensures
            final(object)@ == old(object)@.query(Target::spec_iid()),
            old(object)@.implements(Target::spec_iid()) ==> (r matches Ok(ptr) && ptr.addr()
                == self.addr()),
            !old(object)@.implements(Target::spec_iid()) ==> (r matches Err(e) && e
                == Error::NoSuchInterface && final(object)@ == old(object)@),
    {
        proof {
            use_type_invariant(self);
        }
        let answer = object.query_interface(Target::iid());
        ComPtr::from_query(answer.0, answer.1)
    }

    /// Makes a second handle to `object`, the instance behind this handle,
    /// and takes a reference on the instance for it.
    pub fn duplicate(&self, object: &mut ComObject) -> (copy: ComPtr<T>)
        requires
            self.points_to(old(object)@),
            old(object)@.alive(),
            old(object)@.refs < u32::MAX,
        ensures
            copy.addr() == self.addr(),
            final(object)@ == old(object)@.add_ref(),
    {
        proof {
            use_type_invariant(self);
        }
        object.add_ref();
        ComPtr { addr: self.addr, interface: PhantomData }
    }

    /// Gives up the handle and gives its reference on `object`, the
    /// instance behind it, back. Returns whether that was the last
    /// reference, so that the instance is now destroyed.
    pub fn release(self, object: &mut ComObject) -> (destroyed: bool)
        requires
            self.points_to(old(object)@),
            old(object)@.alive(),
        ensures
            final(object)@ == old(object)@.release(),
            destroyed == !final(object)@.alive(),
    {
        object.release() == 0
    }
}

/// What can be done with a handle.
pub enum HandleOp {
    /// Make a second handle, as [`ComPtr::duplicate`] does.
    Duplicate,
    /// Give the handle up, as [`ComPtr::release`] does.
    Release,
    /// Ask the instance for the interface with this identifier, as
    /// [`ComPtr::query`] does.
    Query(Guid),
    /// Turn the handle into one to a base interface, as [`ComPtr::upcast`]
    /// does.
    Upcast,
}

/// An instance next to the number of handles that refer to it.
pub struct Ledger {
    /// The instance.
    pub object: ObjectState,
    /// How many handles to the instance there are.
    pub handles: nat,
}

impl Ledger {
    /// The instance and the number of its handles after one of the handles
    /// was used for `op`.
    pub open spec fn step(self, op: HandleOp) -> Ledger {
        match op {
            HandleOp::Duplicate => Ledger {
                object: self.object.add_ref(),
                handles: self.handles + 1,
            },
            HandleOp::Release => Ledger {
                object: self.object.release(),
                handles: (self.handles - 1) as nat,
            },
            HandleOp::Query(iid) => Ledger {
                object: self.object.query(iid),
                handles: if self.object.implements(iid) {
                    self.handles + 1
                } else {
                    self.handles
                },
            },
            HandleOp::Upcast => self,
        }
    }

    /// The instance and the number of its handles after `ops`, in order.
    pub open spec fn run(self, ops: Seq<HandleOp>) -> Ledger
        decreases ops.len(),
    {
        if ops.len() == 0 {
            self
        } else {
            self.step(ops[0]).run(ops.skip(1))
        }
    }

    /// Whether `ops` can be done in order: each of them needs a handle to be
    /// done with.
    pub open spec fn allows(self, ops: Seq<HandleOp>) -> bool
        decreases ops.len(),
    {
        ops.len() == 0 || (self.handles >= 1 && self.step(ops[0]).allows(ops.skip(1)))
    }
}

/// However the handles to an instance are used, its reference count moves
/// in step with their number: the references that the handles do not
/// account for stay as many as they were.
///
/// So the instance is alive for as long as there is a handle to it, and
/// where the handles held all its references, it is destroyed when the last
/// of them is released.
pub proof fn lemma_count_follows_handles(start: Ledger, ops: Seq<HandleOp>)
    requires
        start.handles <= start.object.refs,
        start.allows(ops),
    ensures
        start.run(ops).object.refs - start.run(ops).handles == start.object.refs - start.handles,
        start.run(ops).object.addr == start.object.addr,
        start.run(ops).object.iids == start.object.iids,
        start.run(ops).handles >= 1 ==> start.run(ops).object.alive(),
        start.handles == start.object.refs && start.run(ops).handles == 0 ==> !start.run(
            ops,
        ).object.alive(),
    decreases ops.len(),
{
    if ops.len() > 0 {
        lemma_count_follows_handles(start.step(ops[0]), ops.skip(1));
    }
}

} // verus!
