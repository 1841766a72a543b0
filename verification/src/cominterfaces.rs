//! Interface markers and the registry of interface identifiers.
//!
//! An interface of the family is known to this layer by a marker type. The
//! marker says which table of function slots the interface is called
//! through ([`ComInterface`]) and, unless the interface is parameterized,
//! which identifier the native runtime knows it by ([`ComIid`]).

use crate::guid::Guid;
use vstd::prelude::*;

verus! {

/// Marker for every interface of the family.
///
/// It carries no behaviour: all it declares is the type of the interface's
/// table of function slots.
pub trait ComInterface {
    /// The type that lays out the table of this interface.
    type Vtbl: Sized;
}

/// Gives the identifier of an interface.
///
/// Every interface has one but the parameterized ones, whose identifier
/// depends on the types they are instantiated with.
pub trait ComIid {
    /// The identifier of this interface.
    spec fn spec_iid() -> Guid;

    /// Returns the identifier of this interface.
    fn iid() -> (id: &'static Guid)
        ensures
            *id == Self::spec_iid(),
    ;
}

/// Says that the table of `Self` begins with the slots of `Base`'s table, in
/// the same order, so that an instance reached through `Self` can as well be
/// reached through `Base`.
pub trait Extends<Base: ComInterface>: ComInterface {

}

/// Table of the three slots that every interface of the family begins with:
/// query for an interface, add a reference, release a reference.
#[derive(Debug)]
pub struct IUnknownVtbl(());

/// The root interface: interface query and reference counting.
#[derive(Debug)]
pub struct IUnknown(());

/// Table of [`IRestrictedErrorInfo`]: the three base slots, then the slots
/// for the error's details and for its reference string.
#[derive(Debug)]
pub struct IRestrictedErrorInfoVtbl(());

/// Details of an error that crossed the native boundary.
#[derive(Debug)]
pub struct IRestrictedErrorInfo(());

/// Marks an object whose interfaces may be called from any execution
/// context. It has no slots beyond those of [`IUnknown`].
#[derive(Debug)]
pub struct IAgileObject(());

impl ComInterface for IUnknown {
    type Vtbl = IUnknownVtbl;
}

impl ComIid for IUnknown {
    open spec fn spec_iid() -> Guid {
        Guid {
            data1: 0x00000000,
            data2: 0x0000,
            data3: 0x0000,
            data4: [0xC0, 0x00, 0x00, 0x00, 0x00, 0x00, 0x00, 0x46],
        }
    }

    fn iid() -> (id: &'static Guid) {
        &Guid {
            data1: 0x00000000,
            data2: 0x0000,
            data3: 0x0000,
            data4: [0xC0, 0x00, 0x00, 0x00, 0x00, 0x00, 0x00, 0x46],
        }
    }
}

impl ComInterface for IRestrictedErrorInfo {
    type Vtbl = IRestrictedErrorInfoVtbl;
}

impl ComIid for IRestrictedErrorInfo {
    open spec fn spec_iid() -> Guid {
        Guid {
            data1: 0x82BA7092,
            data2: 0x4C88,
            data3: 0x427D,
            data4: [0xA7, 0xBC, 0x16, 0xDD, 0x93, 0xFE, 0xB6, 0x7E],
        }
    }

    fn iid() -> (id: &'static Guid) {
        &Guid {
            data1: 0x82BA7092,
            data2: 0x4C88,
            data3: 0x427D,
            data4: [0xA7, 0xBC, 0x16, 0xDD, 0x93, 0xFE, 0xB6, 0x7E],
        }
    }
}

impl Extends<IUnknown> for IRestrictedErrorInfo {

}

impl ComInterface for IAgileObject {
    type Vtbl = IUnknownVtbl;
}

impl ComIid for IAgileObject {
    open spec fn spec_iid() -> Guid {
        Guid {
            data1: 0x94EA2B94,
            data2: 0xE9CC,
            data3: 0x49E0,
            data4: [0xC0, 0xFF, 0xEE, 0x64, 0xCA, 0x8F, 0x5B, 0x90],
        }
    }

    fn iid() -> (id: &'static Guid) {
        &Guid {
            data1: 0x94EA2B94,
            data2: 0xE9CC,
            data3: 0x49E0,
            data4: [0xC0, 0xFF, 0xEE, 0x64, 0xCA, 0x8F, 0x5B, 0x90],
        }
    }
}

impl Extends<IUnknown> for IAgileObject {

}

/// The identifiers of the registry are pairwise distinct.
pub proof fn lemma_iids_distinct()
    ensures
        IUnknown::spec_iid() != IRestrictedErrorInfo::spec_iid(),
        IUnknown::spec_iid() != IAgileObject::spec_iid(),
        IRestrictedErrorInfo::spec_iid() != IAgileObject::spec_iid(),
{
}

} // verus!
