//! The foreign side of the handles: the object space and the history of
//! reference-count calls made into it.

use crate::error::{succeeded, HRESULT};
use vstd::prelude::*;

verus! {

/// The globally unique 128-bit identifier of an interface.
#[derive(Clone, Copy, Debug, PartialEq, Eq, Structural)]
pub struct Iid {
    pub value: u128,
}

/// One call of the reference-count protocol on a foreign object.
pub enum Call {
    /// One more reference was taken on the object at `ptr`.
    AddRef { ptr: usize },
    /// One reference on the object at `ptr` was given back.
    Release { ptr: usize },
    /// The object at `ptr` was asked for its interface `iid`; it answered
    /// `hr` and left `out` in the output slot.
    QueryInterface { ptr: usize, iid: Iid, hr: HRESULT, out: usize },
}

/// A foreign object space together with the history of the protocol calls
/// that were made into it.
///
/// `objects` is whatever stands for the foreign objects themselves; the
/// library never looks at it. The history is ghost state: it costs nothing
/// at run time and exists so that contracts can say which calls a function
/// makes.
pub struct ObjectSpace<O> {
    pub objects: O,
    calls: Ghost<Seq<Call>>,
}

impl<O> ObjectSpace<O> {
    /// The protocol calls made into this space so far, oldest first.
    pub closed spec fn calls(&self) -> Seq<Call> {
        self.calls@
    }

    /// What stands for the foreign objects, as a value in contracts.
    pub closed spec fn contents(&self) -> O {
        self.objects
    }

    /// A space over `objects` into which no call has been made yet.
    pub fn new(objects: O) -> (space: Self)
        ensures
            space.contents() == objects,
            space.calls() == Seq::<Call>::empty(),
    {
        ObjectSpace { objects, calls: Ghost(Seq::empty()) }
    }

    /// Gives the objects back and forgets the history.
    pub fn into_objects(self) -> (objects: O)
        ensures
            objects == self.contents(),
    {
        self.objects
    }
}

/// The history `calls` followed by the increment that a copy of an owning
/// handle on `ptr` makes. A null `ptr` owns nothing and adds no call.
pub open spec fn with_add_ref(calls: Seq<Call>, ptr: usize) -> Seq<Call> {
    if ptr == 0 {
        calls
    } else {
        calls.push(Call::AddRef { ptr })
    }
}

/// The history `calls` followed by the decrement that giving up a handle on
/// `ptr` makes. A null `ptr` owns nothing and adds no call.
pub open spec fn with_release(calls: Seq<Call>, ptr: usize) -> Seq<Call> {
    if ptr == 0 {
        calls
    } else {
        calls.push(Call::Release { ptr })
    }
}

/// The history `calls` followed by a request to the object at `ptr` for its
/// interface `iid`, answered with `hr` and `out`. After a failure, whatever
/// was left in the output slot is given back at once.
pub open spec fn with_query(calls: Seq<Call>, ptr: usize, iid: Iid, hr: HRESULT, out: usize) -> Seq<
    Call,
> {
    let asked = calls.push(Call::QueryInterface { ptr, iid, hr, out });
    if succeeded(hr) {
        asked
    } else {
        with_release(asked, out)
    }
}

} // verus!
