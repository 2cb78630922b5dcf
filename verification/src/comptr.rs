//! Owning handles over foreign reference-counted objects.

use crate::error::{succeeded, E_POINTER, HRESULT, SUCCEEDED};
use crate::space::{with_add_ref, with_query, with_release, Call, Iid, ObjectSpace};
use std::marker::PhantomData;
use vstd::prelude::*;
use vstd::std_specs::cmp::PartialEqSpecImpl;

verus! {

/// The reference-count protocol of one foreign interface type: how to take a
/// reference on an object of that type, how to give one back, and how to ask
/// the object for another of its interfaces.
///
/// `ptr` is the address of the object and is never null. Each method makes
/// one call into the object at `ptr`. Its contract says only that this call,
/// with the answer that came back, enters the history of `space`: the
/// history is by definition the calls that were made, so the clause asks
/// nothing of the foreign object.
pub trait ComUnknown {
    /// What stands for the foreign objects that addresses of this interface
    /// type point into.
    type Objects;

    /// Takes one more reference on the object; returns the object's new count.
    fn add_ref(space: &mut ObjectSpace<Self::Objects>, ptr: usize) -> (count: u32)
        requires
            ptr != 0,
        ensures
            final(space).calls() == old(space).calls().push(Call::AddRef { ptr }),
    ;

    /// Gives one reference on the object back; returns the object's new count.
    fn release(space: &mut ObjectSpace<Self::Objects>, ptr: usize) -> (count: u32)
        requires
            ptr != 0,
        ensures
            final(space).calls() == old(space).calls().push(Call::Release { ptr }),
    ;

    /// Asks the object for its interface `riid`. Returns the status code and
    /// leaves in `ppv` the address that the object answered with.
    fn query_interface(
        space: &mut ObjectSpace<Self::Objects>,
        ptr: usize,
        riid: &Iid,
        ppv: &mut usize,
    ) -> (hr: HRESULT)
        requires
            ptr != 0,
        ensures
            final(space).calls() == old(space).calls().push(
                Call::QueryInterface { ptr, iid: *riid, hr, out: *final(ppv) },
            ),
    ;
}

/// A foreign interface type with a fixed identifier.
pub trait HasIID {
    /// The identifier under which objects are asked for this interface.
    fn iid() -> Iid;
}

/// A handle that owns at most one reference on a foreign object of
/// interface type `T`.
///
/// The handle is either empty (its address is null) or owning (its address
/// is that of the object, and one reference on the object is the handle's to
/// give back, exactly once). Its view is the stored address.
///
/// Every operation that calls into the foreign object takes the object space
/// and says in its contract which calls it adds to the space's history. A
/// handle that goes out of scope makes no call: give it up with
/// [`ComPtr::release`] or [`ComPtr::drop`].
#[derive(Debug)]
pub struct ComPtr<T: ComUnknown> {
    ptr: usize,
    interface: PhantomData<T>,
}

impl<T: ComUnknown> View for ComPtr<T> {
    type V = usize;

    closed spec fn view(&self) -> usize {
        self.ptr
    }
}

/// What a cast returns for the answer `hr`, `out` of the foreign object: the
/// address that was answered after a success, the status code after a
/// failure.
pub open spec fn cast_outcome(hr: HRESULT, out: usize) -> Result<usize, HRESULT> {
    if succeeded(hr) {
        Ok(out)
    } else {
        Err(hr)
    }
}

/// The address in a successful result, the status code in a failed one.
pub open spec fn outcome_of<U: ComUnknown>(res: Result<ComPtr<U>, HRESULT>) -> Result<
    usize,
    HRESULT,
> {
    match res {
        Ok(handle) => Ok(handle@),
        Err(hr) => Err(hr),
    }
}

/// That `after` is `before` followed by one request to the object at `ptr`
/// for the interface `U`, and that `res` is what the cast makes of the
/// object's answer.
pub open spec fn cast_made<U: HasIID>(
    ptr: usize,
    before: Seq<Call>,
    after: Seq<Call>,
    res: Result<usize, HRESULT>,
) -> bool {
    &&& after.len() > before.len()
    &&& after[before.len() as int] matches Call::QueryInterface { ptr: asked, iid, hr, out }
    &&& asked == ptr
    &&& call_ensures(U::iid, (), iid)
    &&& after == with_query(before, ptr, iid, hr, out)
    &&& res == cast_outcome(hr, out)
}

impl<T: ComUnknown> ComPtr<T> {
    /// An empty handle.
    pub fn new() -> (handle: Self)
        ensures
            handle@ == 0,
    {
        ComPtr { ptr: 0, interface: PhantomData }
    }

    /// Gives the owned reference back, if there is one, and leaves the handle
    /// empty. On an empty handle nothing happens.
    pub fn release(&mut self, space: &mut ObjectSpace<T::Objects>)
        ensures
            final(self)@ == 0,
            final(space).calls() == with_release(old(space).calls(), old(self)@),
            old(self)@ == 0 ==> *final(space) == *old(space),
    {
        if self.ptr != 0 {
            T::release(space, self.ptr);
            self.ptr = 0;
        }
    }

    /// Whether the handle is empty.
    pub fn is_null(&self) -> (null: bool)
        ensures
            null == (self@ == 0),
    {
        self.ptr == 0
    }

    /// Asks the held object for its interface `U` and returns a handle that
    /// owns the reference the object answered with.
    ///
    /// An empty handle fails with `E_POINTER` and makes no call. Otherwise
    /// the object is asked once, with the identifier of `U`; a failure code
    /// comes back unchanged. This handle is not touched either way.
    pub fn query_interface<U: ComUnknown<Objects = T::Objects> + HasIID>(
        &self,
        space: &mut ObjectSpace<T::Objects>,
    ) -> (res: Result<ComPtr<U>, HRESULT>)
        ensures
            self@ == 0 ==> res == Err::<ComPtr<U>, HRESULT>(E_POINTER) && *final(space) == *old(
                space,
            ),
            self@ != 0 ==> cast_made::<U>(
                self@,
                old(space).calls(),
                final(space).calls(),
                outcome_of(res),
            ),
    {
        if self.ptr == 0 {
            return Err(E_POINTER);
        }
        let mut out: ComPtr<U> = ComPtr::new();
        let iid = U::iid();
        let hr = T::query_interface(space, self.ptr, &iid, out.raw_void());
        ComPtr::from_result(hr, out, space)
    }

    /// Finishes a call that answered with the status `hr` and filled the
    /// handle `out`: after a success `out` is the result; after a failure
    /// whatever `out` holds is given back and the status code is the error.
    pub fn from_result(hr: HRESULT, out: Self, space: &mut ObjectSpace<T::Objects>) -> (res: Result<
        Self,
        HRESULT,
    >)
        ensures
            succeeded(hr) ==> res == Ok::<Self, HRESULT>(out) && *final(space) == *old(space),
            !succeeded(hr) ==> res == Err::<Self, HRESULT>(hr) && final(space).calls()
                == with_release(old(space).calls(), out@),
            !succeeded(hr) && out@ == 0 ==> *final(space) == *old(space),
    {
        if SUCCEEDED(hr) {
            Ok(out)
        } else {
            let mut out = out;
            out.release(space);
            Err(hr)
        }
    }

    /// A handle on `ptr` that takes a reference of its own. Whoever held
    /// `ptr` before still holds what it held. A null `ptr` gives an empty
    /// handle and makes no call.
    pub fn from_existing(ptr: usize, space: &mut ObjectSpace<T::Objects>) -> (handle: Self)
        ensures
            handle@ == ptr,
            final(space).calls() == with_add_ref(old(space).calls(), ptr),
            ptr == 0 ==> *final(space) == *old(space),
    {
        if ptr != 0 {
            T::add_ref(space, ptr);
        }
        ComPtr { ptr, interface: PhantomData }
    }

    /// A handle that takes over the reference that the caller holds on
    /// `ptr`. No call is made.
    pub fn attach(ptr: usize) -> (handle: Self)
        ensures
            handle@ == ptr,
    {
        ComPtr { ptr, interface: PhantomData }
    }

    /// Hands the owned reference to the caller: returns the address and
    /// leaves the handle empty. No call is made.
    pub fn detach(&mut self) -> (ptr: usize)
        ensures
            ptr == old(self)@,
            final(self)@ == 0,
    {
        let ptr = self.ptr;
        self.ptr = 0;
        ptr
    }

    /// The stored address. The handle keeps what it owns.
    pub fn raw_value(&self) -> (ptr: usize)
        ensures
            ptr == self@,
    {
        self.ptr
    }

    /// The slot that holds the address, for a call that fills it. What the
    /// slot holds when the caller is done with it is owned by the handle.
    /// The handle must be empty: a reference it owned would be lost.
    pub fn raw_addr(&mut self) -> (slot: &mut usize)
        requires
            old(self)@ == 0,
        ensures
            *slot == 0,
            final(self)@ == *final(slot),
    {
        &mut self.ptr
    }

    /// The slot of [`ComPtr::raw_addr`], for a call that fills it with an
    /// address of no particular interface type.
    pub fn raw_void(&mut self) -> (slot: &mut usize)
        requires
            old(self)@ == 0,
        ensures
            *slot == 0,
            final(self)@ == *final(slot),
    {
        self.raw_addr()
    }

    /// A second handle on the same object, with a reference of its own. An
    /// empty handle gives an empty handle and makes no call.
    pub fn clone(&self, space: &mut ObjectSpace<T::Objects>) -> (copy: Self)
        ensures
            copy@ == self@,
            final(space).calls() == with_add_ref(old(space).calls(), self@),
            self@ == 0 ==> *final(space) == *old(space),
    {
        if self.ptr != 0 {
            T::add_ref(space, self.ptr);
        }
        ComPtr { ptr: self.ptr, interface: PhantomData }
    }

    /// Ends the handle: what [`ComPtr::release`] does, on a handle that is
    /// used up.
    pub fn drop(self, space: &mut ObjectSpace<T::Objects>)
        ensures
            final(space).calls() == with_release(old(space).calls(), self@),
            self@ == 0 ==> *final(space) == *old(space),
    {
        let mut handle = self;
        handle.release(space);
    }
}

impl<T: ComUnknown + HasIID> ComPtr<T> {
    /// The identifier of the interface type of this handle.
    pub fn iid(&self) -> (id: Iid)
        ensures
            call_ensures(T::iid, (), id),
    {
        T::iid()
    }
}

impl<T: ComUnknown> PartialEq for ComPtr<T> {
    /// Two handles are equal when they store the same address.
    fn eq(&self, rhs: &Self) -> (same: bool) {
        self.ptr == rhs.ptr
    }
}

impl<T: ComUnknown> PartialEqSpecImpl for ComPtr<T> {
    open spec fn obeys_eq_spec() -> bool {
        true
    }

    open spec fn eq_spec(&self, rhs: &Self) -> bool {
        self@ == rhs@
    }
}

} // verus!
