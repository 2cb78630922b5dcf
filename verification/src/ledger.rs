//! The ledger of a history: how many references its calls took and gave
//! back on each object, and what the handle operations do to that balance.

use crate::comptr::{cast_outcome, ComPtr, ComUnknown};
use crate::error::{succeeded, HRESULT};
use crate::space::{with_add_ref, with_query, with_release, Call, Iid};
use vstd::prelude::*;
use vstd::std_specs::cmp::PartialEqSpec;

verus! {

/// Whether `call` took a reference on the object at `ptr`. A request for an
/// interface that left an address in its output slot took a reference on
/// that address, whatever its status code says.
pub open spec fn takes(call: Call, ptr: usize) -> bool {
    match call {
        Call::AddRef { ptr: target } => target == ptr,
        Call::Release { .. } => false,
        Call::QueryInterface { out, .. } => out != 0 && out == ptr,
    }
}

/// Whether `call` gave a reference on the object at `ptr` back.
pub open spec fn gives_back(call: Call, ptr: usize) -> bool {
    call == (Call::Release { ptr })
}

/// The number of references that the calls of a history took on the object
/// at `ptr`.
pub open spec fn increments(calls: Seq<Call>, ptr: usize) -> nat
    decreases calls.len(),
{
    if calls.len() == 0 {
        0
    } else {
        increments(calls.drop_last(), ptr) + if takes(calls.last(), ptr) {
            1nat
        } else {
            0nat
        }
    }
}

/// The number of references on the object at `ptr` that the calls of a
/// history gave back.
pub open spec fn decrements(calls: Seq<Call>, ptr: usize) -> nat
    decreases calls.len(),
{
    if calls.len() == 0 {
        0
    } else {
        decrements(calls.drop_last(), ptr) + if gives_back(calls.last(), ptr) {
            1nat
        } else {
            0nat
        }
    }
}

/// One more call adds what it takes to the increments of a history and what
/// it gives back to the decrements.
pub proof fn lemma_count_push(calls: Seq<Call>, call: Call, ptr: usize)
    ensures
        increments(calls.push(call), ptr) == increments(calls, ptr) + if takes(call, ptr) {
            1nat
        } else {
            0nat
        },
        decrements(calls.push(call), ptr) == decrements(calls, ptr) + if gives_back(call, ptr) {
            1nat
        } else {
            0nat
        },
{
    assert(calls.push(call).drop_last() =~= calls);
}

/// An operation on one of the handles that descend from a common original,
/// named by its position among them.
pub enum HandleOp {
    /// The handle is copied; the copy joins the family as its last member.
    Copy { handle: int },
    /// The handle is released, or dropped.
    Release { handle: int },
}

/// The addresses of a family of handles and the history, after `op`. An
/// operation on a handle that the family does not have changes nothing.
pub open spec fn step(handles: Seq<usize>, calls: Seq<Call>, op: HandleOp) -> (
    Seq<usize>,
    Seq<Call>,
) {
    match op {
        HandleOp::Copy { handle } => if 0 <= handle < handles.len() {
            (handles.push(handles[handle]), with_add_ref(calls, handles[handle]))
        } else {
            (handles, calls)
        },
        HandleOp::Release { handle } => if 0 <= handle < handles.len() {
            (handles.update(handle, 0), with_release(calls, handles[handle]))
        } else {
            (handles, calls)
        },
    }
}

/// The addresses of a family of handles and the history, after the
/// operations `ops` in turn.
pub open spec fn run(handles: Seq<usize>, calls: Seq<Call>, ops: Seq<HandleOp>) -> (
    Seq<usize>,
    Seq<Call>,
)
    decreases ops.len(),
{
    if ops.len() == 0 {
        (handles, calls)
    } else {
        let (next_handles, next_calls) = step(handles, calls, ops.first());
        run(next_handles, next_calls, ops.drop_first())
    }
}

/// The number of handles of a family that hold the address `ptr`.
pub open spec fn holders(handles: Seq<usize>, ptr: usize) -> nat
    decreases handles.len(),
{
    if handles.len() == 0 {
        0
    } else {
        holders(handles.drop_last(), ptr) + if handles.last() == ptr {
            1nat
        } else {
            0nat
        }
    }
}

/// Whether every handle of a family is empty.
pub open spec fn all_empty(handles: Seq<usize>) -> bool {
    forall|i: int| 0 <= i < handles.len() ==> handles[i] == 0
}

proof fn lemma_holders_push(handles: Seq<usize>, addr: usize, ptr: usize)
    ensures
        holders(handles.push(addr), ptr) == holders(handles, ptr) + if addr == ptr {
            1nat
        } else {
            0nat
        },
{
    assert(handles.push(addr).drop_last() =~= handles);
}

proof fn lemma_holders_emptied(handles: Seq<usize>, i: int, ptr: usize)
    requires
        0 <= i < handles.len(),
        ptr != 0,
    ensures
        holders(handles, ptr) == holders(handles.update(i, 0), ptr) + if handles[i] == ptr {
            1nat
        } else {
            0nat
        },
    decreases handles.len(),
{
    let emptied = handles.update(i, 0);
    if i == handles.len() - 1 {
        assert(emptied.drop_last() =~= handles.drop_last());
    } else {
        assert(emptied.drop_last() =~= handles.drop_last().update(i, 0));
        lemma_holders_emptied(handles.drop_last(), i, ptr);
    }
}

proof fn lemma_holders_none(handles: Seq<usize>, ptr: usize)
    requires
        all_empty(handles),
        ptr != 0,
    ensures
        holders(handles, ptr) == 0,
    decreases handles.len(),
{
    if handles.len() > 0 {
        lemma_holders_none(handles.drop_last(), ptr);
    }
}

proof fn lemma_step_keeps_balance(handles: Seq<usize>, calls: Seq<Call>, op: HandleOp, ptr: usize)
    requires
        ptr != 0,
    ensures
        ({
            let (next_handles, next_calls) = step(handles, calls, op);
            &&& increments(next_calls, ptr) >= increments(calls, ptr)
            &&& decrements(next_calls, ptr) >= decrements(calls, ptr)
            &&& increments(next_calls, ptr) + decrements(calls, ptr) + holders(handles, ptr)
                == increments(calls, ptr) + decrements(next_calls, ptr) + holders(
                next_handles,
                ptr,
            )
        }),
{
    match op {
        HandleOp::Copy { handle } => {
            if 0 <= handle < handles.len() {
                let addr = handles[handle];
                lemma_holders_push(handles, addr, ptr);
                if addr != 0 {
                    lemma_count_push(calls, Call::AddRef { ptr: addr }, ptr);
                }
            }
        },
        HandleOp::Release { handle } => {
            if 0 <= handle < handles.len() {
                let addr = handles[handle];
                lemma_holders_emptied(handles, handle, ptr);
                if addr != 0 {
                    lemma_count_push(calls, Call::Release { ptr: addr }, ptr);
                }
            }
        },
    }
}

/// The ledger of a family of handles. Whatever copies and releases are made
/// on the handles, in whatever order: a reference is taken on an object for
/// each handle that comes to hold it, and none besides; and the references
/// given back on an object are those taken, less one for each handle that
/// holds it now, plus one for each handle that held it at the start.
pub proof fn lemma_family_ledger(
    handles: Seq<usize>,
    calls: Seq<Call>,
    ops: Seq<HandleOp>,
    ptr: usize,
)
    requires
        ptr != 0,
    ensures
        ({
            let (end_handles, end_calls) = run(handles, calls, ops);
            &&& increments(end_calls, ptr) >= increments(calls, ptr)
            &&& decrements(end_calls, ptr) >= decrements(calls, ptr)
            &&& (decrements(end_calls, ptr) - decrements(calls, ptr)) + holders(end_handles, ptr)
                == (increments(end_calls, ptr) - increments(calls, ptr)) + holders(handles, ptr)
        }),
    decreases ops.len(),
{
    if ops.len() > 0 {
        let (next_handles, next_calls) = step(handles, calls, ops.first());
        lemma_step_keeps_balance(handles, calls, ops.first(), ptr);
        lemma_family_ledger(next_handles, next_calls, ops.drop_first(), ptr);
    }
}

/// No leak and no double release. Take a handle that holds `ptr` (or is
/// empty, if `ptr` is null) and any sequence of copies and releases on it and
/// on its copies. On the object that the handle holds, at no time have more
/// references been given back than the copies took and the original owns;
/// once every handle of the family is released, exactly those have been
/// given back. On any other object no reference was taken or given back.
pub proof fn family_balance(ptr: usize, calls: Seq<Call>, ops: Seq<HandleOp>, object: usize)
    requires
        object != 0,
    ensures
        ({
            let (end_handles, end_calls) = run(seq![ptr], calls, ops);
            let taken = increments(end_calls, object) - increments(calls, object);
            let given_back = decrements(end_calls, object) - decrements(calls, object);
            let owned: int = if object == ptr {
                1
            } else {
                0
            };
            &&& 0 <= taken
            &&& 0 <= given_back <= taken + owned
            &&& all_empty(end_handles) ==> given_back == taken + owned
            &&& object != ptr ==> taken == 0 && given_back == 0
        }),
{
    let start = seq![ptr];
    assert(start =~= Seq::<usize>::empty().push(ptr));
    lemma_holders_push(Seq::<usize>::empty(), ptr, object);
    lemma_family_ledger(start, calls, ops, object);
    if object != ptr {
        lemma_family_elsewhere(start, calls, ops, ptr, object);
    }
    let (end_handles, end_calls) = run(start, calls, ops);
    if all_empty(end_handles) {
        lemma_holders_none(end_handles, object);
    }
}

/// One if `object` is the object at `ptr`, zero if not.
pub open spec fn one_on(ptr: usize, object: usize) -> nat {
    if object == ptr {
        1
    } else {
        0
    }
}

/// Releasing twice gives back once. `first` is a handle before a release,
/// `second` the same handle after it and `third` after a further release,
/// with the histories `calls`, `once` and `twice` that go with them. The
/// second release makes no call, and of the two only one reference was given
/// back, on the object that the handle held.
pub proof fn release_twice<T: ComUnknown>(
    first: ComPtr<T>,
    second: ComPtr<T>,
    third: ComPtr<T>,
    calls: Seq<Call>,
    once: Seq<Call>,
    twice: Seq<Call>,
    object: usize,
)
    requires
        second@ == 0,
        once == with_release(calls, first@),
        third@ == 0,
        twice == with_release(once, second@),
        object != 0,
    ensures
        twice == once,
        increments(twice, object) == increments(calls, object),
        decrements(twice, object) == decrements(calls, object) + one_on(first@, object),
{
    if first@ != 0 {
        lemma_count_push(calls, Call::Release { ptr: first@ }, object);
    }
}

/// The result of a cast owns one reference, and its end is its own. A handle
/// `source` on an object is cast with the history `calls`, the object
/// answers with a success `hr` and the non-null address `out`, and `result`
/// is the handle that the cast returns. Then `result` holds `out`, and the
/// cast took that one reference and gave none back. Dropping `result` gives
/// back one reference on `out`, dropping `source` one on the object it
/// holds, each whether or not the other was dropped before.
pub proof fn cast_result_is_owned<T: ComUnknown, U: ComUnknown>(
    source: ComPtr<T>,
    result: ComPtr<U>,
    iid: Iid,
    hr: HRESULT,
    out: usize,
    calls: Seq<Call>,
    cast: Seq<Call>,
    object: usize,
)
    requires
        source@ != 0,
        succeeded(hr),
        out != 0,
        cast == with_query(calls, source@, iid, hr, out),
        Ok::<usize, HRESULT>(result@) == cast_outcome(hr, out),
        object != 0,
    ensures
        result@ == out,
        increments(cast, object) == increments(calls, object) + one_on(out, object),
        decrements(cast, object) == decrements(calls, object),
        decrements(with_release(cast, result@), object) == decrements(cast, object) + one_on(
            out,
            object,
        ),
        decrements(with_release(cast, source@), object) == decrements(cast, object) + one_on(
            source@,
            object,
        ),
        decrements(with_release(with_release(cast, source@), result@), object) == decrements(
            with_release(cast, source@),
            object,
        ) + one_on(out, object),
        decrements(with_release(with_release(cast, result@), source@), object) == decrements(
            with_release(cast, result@),
            object,
        ) + one_on(source@, object),
{
    lemma_count_push(calls, Call::QueryInterface { ptr: source@, iid, hr, out }, object);
    lemma_count_push(cast, Call::Release { ptr: out }, object);
    lemma_count_push(cast, Call::Release { ptr: source@ }, object);
    lemma_count_push(with_release(cast, source@), Call::Release { ptr: out }, object);
    lemma_count_push(with_release(cast, result@), Call::Release { ptr: source@ }, object);
}

/// A cast that fails leaves nothing owned. A handle `source` on an object is
/// cast with the history `calls`, and the object answers with a failure `hr`
/// and with `out` in the slot. Then the cast returns `hr`, and on every
/// object it gave back what it took.
pub proof fn failed_cast_owns_nothing<T: ComUnknown>(
    source: ComPtr<T>,
    iid: Iid,
    hr: HRESULT,
    out: usize,
    calls: Seq<Call>,
    cast: Seq<Call>,
    object: usize,
)
    requires
        source@ != 0,
        !succeeded(hr),
        cast == with_query(calls, source@, iid, hr, out),
        object != 0,
    ensures
        cast_outcome(hr, out) == Err::<usize, HRESULT>(hr),
        increments(cast, object) - increments(calls, object) == decrements(cast, object)
            - decrements(calls, object),
        out == 0 ==> increments(cast, object) == increments(calls, object),
{
    let asked = calls.push(Call::QueryInterface { ptr: source@, iid, hr, out });
    lemma_count_push(calls, Call::QueryInterface { ptr: source@, iid, hr, out }, object);
    if out != 0 {
        lemma_count_push(asked, Call::Release { ptr: out }, object);
    }
}

/// A detached handle gives nothing back. `after` is a handle from which the
/// address was detached, and `dropped` is the history after it was dropped
/// with the history `calls`. The drop made no call.
pub proof fn detach_then_drop<T: ComUnknown>(
    after: ComPtr<T>,
    calls: Seq<Call>,
    dropped: Seq<Call>,
    object: usize,
)
    requires
        after@ == 0,
        dropped == with_release(calls, after@),
    ensures
        dropped == calls,
        decrements(dropped, object) == decrements(calls, object),
{
}

/// Two handles that each took a reference of their own on `ptr` are equal,
/// and each can be dropped by itself. `first` and `second` were made from
/// `ptr` one after the other, with the histories `calls`, `one` and `both`.
/// They compare equal; two references were taken on the object; and dropping
/// either handle gives back one of them, whether or not the other was
/// dropped before.
pub proof fn shared_handles_are_equal<T: ComUnknown>(
    ptr: usize,
    first: ComPtr<T>,
    second: ComPtr<T>,
    calls: Seq<Call>,
    one: Seq<Call>,
    both: Seq<Call>,
    object: usize,
)
    requires
        first@ == ptr,
        one == with_add_ref(calls, ptr),
        second@ == ptr,
        both == with_add_ref(one, ptr),
        ptr != 0,
        object != 0,
    ensures
        first.eq_spec(&second),
        increments(both, object) == increments(calls, object) + 2 * one_on(ptr, object),
        decrements(both, object) == decrements(calls, object),
        decrements(with_release(both, first@), object) == decrements(both, object) + one_on(
            ptr,
            object,
        ),
        decrements(with_release(both, second@), object) == decrements(both, object) + one_on(
            ptr,
            object,
        ),
        decrements(with_release(with_release(both, first@), second@), object) == decrements(
            both,
            object,
        ) + 2 * one_on(ptr, object),
        decrements(with_release(with_release(both, second@), first@), object) == decrements(
            both,
            object,
        ) + 2 * one_on(ptr, object),
{
    lemma_count_push(calls, Call::AddRef { ptr }, object);
    lemma_count_push(one, Call::AddRef { ptr }, object);
    lemma_count_push(both, Call::Release { ptr }, object);
    lemma_count_push(with_release(both, ptr), Call::Release { ptr }, object);
}

/// Whether every handle of a family is empty or holds `ptr`.
pub open spec fn all_on(handles: Seq<usize>, ptr: usize) -> bool {
    forall|i: int| 0 <= i < handles.len() ==> handles[i] == 0 || handles[i] == ptr
}

proof fn lemma_family_elsewhere(
    handles: Seq<usize>,
    calls: Seq<Call>,
    ops: Seq<HandleOp>,
    ptr: usize,
    other: usize,
)
    requires
        all_on(handles, ptr),
        other != 0,
        other != ptr,
    ensures
        all_on(run(handles, calls, ops).0, ptr),
        increments(run(handles, calls, ops).1, other) == increments(calls, other),
        decrements(run(handles, calls, ops).1, other) == decrements(calls, other),
    decreases ops.len(),
{
    if ops.len() > 0 {
        let (next_handles, next_calls) = step(handles, calls, ops.first());
        match ops.first() {
            HandleOp::Copy { handle } => {
                if 0 <= handle < handles.len() && handles[handle] != 0 {
                    lemma_count_push(calls, Call::AddRef { ptr: handles[handle] }, other);
                }
            },
            HandleOp::Release { handle } => {
                if 0 <= handle < handles.len() && handles[handle] != 0 {
                    lemma_count_push(calls, Call::Release { ptr: handles[handle] }, other);
                }
            },
        }
        lemma_family_elsewhere(next_handles, next_calls, ops.drop_first(), ptr, other);
    }
}

} // verus!
