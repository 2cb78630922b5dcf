//! The root factory of the text-layout library: binding a handle around the
//! reference that the platform's creation call returns.

use crate::comptr::{ComPtr, ComUnknown};
use crate::error::{succeeded, DWResult, DWriteError, HRESULT, SUCCEEDED};
use crate::space::{with_add_ref, ObjectSpace};
use vstd::prelude::*;

verus! {

/// The root object through which everything else of the text-layout library
/// is reached. `T` is the interface type of the factory object. The view is
/// the address of that object.
#[derive(Debug)]
pub struct Factory<T: ComUnknown> {
    ptr: ComPtr<T>,
}

impl<T: ComUnknown> View for Factory<T> {
    type V = usize;

    closed spec fn view(&self) -> usize {
        self.ptr@
    }
}

impl<T: ComUnknown> Factory<T> {
    /// Binds a factory around what the platform's creation call returned:
    /// its status code `hr` and the address `ptr` that it left in the output
    /// slot.
    ///
    /// After a success the factory takes over the reference that the call
    /// returned on `ptr`; no further reference is taken. After a failure the
    /// status code is the error, and `ptr` is not looked at.
    pub fn new(hr: HRESULT, ptr: usize) -> (res: DWResult<Self>)
        ensures
            succeeded(hr) ==> res is Ok && res->Ok_0@ == ptr,
            !succeeded(hr) ==> res == Err::<Self, DWriteError>(DWriteError { code: hr }),
    {
        if SUCCEEDED(hr) {
            Ok(Factory { ptr: ComPtr::attach(ptr) })
        } else {
            Err(DWriteError::from(hr))
        }
    }

    /// The address of the factory object. The factory keeps what it owns.
    pub fn raw_value(&self) -> (ptr: usize)
        ensures
            ptr == self@,
    {
        self.ptr.raw_value()
    }

    /// A second factory on the same object, with a reference of its own.
    pub fn clone(&self, space: &mut ObjectSpace<T::Objects>) -> (copy: Self)
        ensures
            copy@ == self@,
            final(space).calls() == with_add_ref(old(space).calls(), self@),
            self@ == 0 ==> *final(space) == *old(space),
    {
        Factory { ptr: self.ptr.clone(space) }
    }

    /// Unwraps the factory into the handle that owns its reference.
    pub fn into_ptr(self) -> (handle: ComPtr<T>)
        ensures
            handle@ == self@,
    {
        self.ptr
    }
}

} // verus!
