//! Verified core of a Windows Runtime binding layer: status codes and the
//! structured errors they stand for, interface identifiers and markers, and
//! the reference-counting protocol between owning handles and interface
//! instances, callback adapters among them.

pub mod cominterfaces;
pub mod comobject;
pub mod comptr;
pub mod guid;
pub mod handler;
pub mod result;

pub use crate::cominterfaces::{
    ComIid, ComInterface, Extends, IAgileObject, IRestrictedErrorInfo, IRestrictedErrorInfoVtbl,
    IUnknown, IUnknownVtbl,
};
pub use crate::comobject::ComObject;
pub use crate::comptr::ComPtr;
pub use crate::guid::Guid;
pub use crate::handler::CallbackAdapter;
pub use crate::result::{Error, HRESULT};
