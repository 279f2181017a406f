//! Classes: membership, attribute search along the bases, and construction.

use vstd::prelude::*;
use crate::namespace::{ns_get};
use crate::pyobject::{
    Heap, PyObject, PyObjectKind, PyContext, ExceptionKind, core_ok, stored,
    exception_class_spec, BASE_EXCEPTION, EXCEPTION, RUNTIME_ERROR,
};

verus! {

/// The bases of the class under `cls`; empty where `cls` is no class.
pub open spec fn bases_of(heap: Heap, cls: int) -> Seq<usize> {
    if 0 <= cls < heap.len() {
        match heap[cls].kind {
            PyObjectKind::Class { bases, .. } => bases@,
            _ => Seq::empty(),
        }
    } else {
        Seq::empty()
    }
}

/// `cls` is `target`, or one of its bases is a subclass of `target`.
pub open spec fn is_subclass(heap: Heap, cls: int, target: int) -> bool
    decreases cls, bases_of(heap, cls).len() + 1,
{
    cls == target || any_base_is_subclass(heap, cls, 0, target)
}

/// One of the bases of `cls` from position `k` on is a subclass of `target`.
pub open spec fn any_base_is_subclass(heap: Heap, cls: int, k: int, target: int) -> bool
    decreases cls, bases_of(heap, cls).len() - k,
{
    let bases = bases_of(heap, cls);
    if 0 <= k < bases.len() {
        (bases[k] < cls && is_subclass(heap, bases[k] as int, target)) || any_base_is_subclass(
            heap,
            cls,
            k + 1,
            target,
        )
    } else {
        false
    }
}

/// The value has a type, and that type is a subclass of `target`.
pub open spec fn is_instance(heap: Heap, obj: int, target: int) -> bool {
    0 <= obj < heap.len() && (heap[obj].typ matches Some(t) && is_subclass(heap, t as int, target))
}

/// What `name` resolves to in the class `cls`: the binding of its own
/// namespace, else the first found among its bases, each searched in the same
/// way, in the order in which they were declared.
pub open spec fn class_lookup(heap: Heap, cls: int, name: Seq<char>) -> Option<usize>
    decreases cls, bases_of(heap, cls).len() + 1,
{
    if 0 <= cls < heap.len() {
        match heap[cls].kind {
            PyObjectKind::Class { dict, .. } => {
                let own = if dict < heap.len() {
                    ns_get(heap[dict as int].bindings(), name)
                } else {
                    None
                };
                if own is Some {
                    own
                } else {
                    bases_lookup(heap, cls, 0, name)
                }
            },
            _ => None,
        }
    } else {
        None
    }
}

/// What `name` resolves to in the bases of `cls` from position `k` on.
pub open spec fn bases_lookup(heap: Heap, cls: int, k: int, name: Seq<char>) -> Option<usize>
    decreases cls, bases_of(heap, cls).len() - k,
{
    let bases = bases_of(heap, cls);
    if 0 <= k < bases.len() {
        let first = if bases[k] < cls {
            class_lookup(heap, bases[k] as int, name)
        } else {
            None
        };
        if first is Some {
            first
        } else {
            bases_lookup(heap, cls, k + 1, name)
        }
    } else {
        None
    }
}

/// Whether `cls` is `target` or has it among its ancestors.
pub fn issubclass(ctx: &PyContext, cls: usize, target: usize) -> (yes: bool)
    requires
        ctx.wf(),
        cls < ctx.heap().len(),
    ensures
        yes == is_subclass(ctx.heap(), cls as int, target as int),
    decreases cls, bases_of(ctx.heap(), cls as int).len() + 1,
{
    if cls == target {
        return true;
    }
    assert(ctx.heap()[cls as int].ok(cls as int, ctx.heap().len() as int));
    match &ctx.objects[cls].kind {
        PyObjectKind::Class { bases, .. } => {
            let mut k: usize = bases.len();
            let mut found = false;
            while k > 0
                invariant
                    ctx.wf(),
                    cls < ctx.heap().len(),
                    bases@ == bases_of(ctx.heap(), cls as int),
                    k <= bases.len(),
                    found == any_base_is_subclass(ctx.heap(), cls as int, k as int, target as int),
                    forall|j: int| 0 <= j < bases@.len() ==> #[trigger] bases@[j] < cls,
                decreases k,
            {
                k -= 1;
                let here = issubclass(ctx, bases[k], target);
                found = here || found;
            }
            found
        },
        _ => false,
    }
}

/// Whether the type of `obj`, or one of that type's ancestors, is `target`.
pub fn isinstance(ctx: &PyContext, obj: usize, target: usize) -> (yes: bool)
    requires
        ctx.wf(),
        obj < ctx.heap().len(),
    ensures
        yes == is_instance(ctx.heap(), obj as int, target as int),
{
    assert(ctx.heap()[obj as int].ok(obj as int, ctx.heap().len() as int));
    match ctx.objects[obj].typ {
        Some(t) => issubclass(ctx, t, target),
        None => false,
    }
}

/// Searches the class `cls` and then its bases for `name`.
pub fn lookup(ctx: &PyContext, cls: usize, name: &String) -> (found: Option<usize>)
    requires
        ctx.wf(),
        cls < ctx.heap().len(),
    ensures
        found == class_lookup(ctx.heap(), cls as int, name@),
        found matches Some(v) ==> v < ctx.heap().len(),
    decreases cls, bases_of(ctx.heap(), cls as int).len() + 1,
{
    assert(ctx.heap()[cls as int].ok(cls as int, ctx.heap().len() as int));
    match &ctx.objects[cls].kind {
        PyObjectKind::Class { bases, dict, .. } => {
            let own = ctx.dict_get(*dict, name);
            if own.is_some() {
                return own;
            }
            let mut k: usize = bases.len();
            let mut found: Option<usize> = None;
            while k > 0
                invariant
                    ctx.wf(),
                    cls < ctx.heap().len(),
                    bases@ == bases_of(ctx.heap(), cls as int),
                    k <= bases.len(),
                    found == bases_lookup(ctx.heap(), cls as int, k as int, name@),
                    found matches Some(v) ==> v < ctx.heap().len(),
                    forall|j: int| 0 <= j < bases@.len() ==> #[trigger] bases@[j] < cls,
                decreases k,
            {
                k -= 1;
                let here = lookup(ctx, bases[k], name);
                if here.is_some() {
                    found = here;
                }
            }
            found
        },
        _ => None,
    }
}

/// Stores a new class named `name` with the given bases and namespace, whose
/// own type is `metaclass`.
pub fn new(ctx: &mut PyContext, metaclass: usize, name: String, bases: Vec<usize>, dict: usize) -> (id: usize)
    requires
        old(ctx).wf(),
        metaclass < old(ctx).heap().len(),
        dict < old(ctx).heap().len(),
        forall|k: int| 0 <= k < bases@.len() ==> #[trigger] bases@[k] < old(ctx).heap().len(),
    ensures
        final(ctx).wf(),
        stored(old(ctx).heap(), final(ctx).heap(), id, PyObject { kind: PyObjectKind::Class { name, bases, dict }, typ: Some(metaclass) }),
{
    ctx.new_object(PyObject { kind: PyObjectKind::Class { name, bases, dict }, typ: Some(metaclass) })
}

/// A class with the single base `base` is a subclass of whatever `base` is a
/// subclass of.
pub proof fn lemma_single_base(heap: Heap, cls: int, base: usize, target: int)
    requires
        0 <= cls < heap.len(),
        bases_of(heap, cls) == seq![base],
        base < cls,
        is_subclass(heap, base as int, target),
    ensures
        is_subclass(heap, cls, target),
{
    assert(any_base_is_subclass(heap, cls, 0, target));
}

/// Every value whose type is the class of one of the built-in error kinds is
/// an instance of `BaseException`.
pub proof fn lemma_errors_are_base_exceptions(heap: Heap, obj: int, kind: ExceptionKind)
    requires
        core_ok(heap),
        0 <= obj < heap.len(),
        heap[obj].typ == Some(exception_class_spec(kind)),
    ensures
        is_instance(heap, obj, BASE_EXCEPTION as int),
        kind != ExceptionKind::BaseException ==> is_instance(heap, obj, EXCEPTION as int),
{
    let b = BASE_EXCEPTION as int;
    let e = EXCEPTION as int;
    assert(is_subclass(heap, b, b));
    assert(is_subclass(heap, e, e));
    lemma_single_base(heap, e, BASE_EXCEPTION, b);
    lemma_single_base(heap, RUNTIME_ERROR as int, EXCEPTION, b);
    lemma_single_base(heap, RUNTIME_ERROR as int, EXCEPTION, e);
    let c = exception_class_spec(kind);
    match kind {
        ExceptionKind::BaseException => {},
        ExceptionKind::Exception => {},
        ExceptionKind::NotImplementedError => {
            lemma_single_base(heap, c as int, RUNTIME_ERROR, b);
            lemma_single_base(heap, c as int, RUNTIME_ERROR, e);
        },
        _ => {
            lemma_single_base(heap, c as int, EXCEPTION, b);
            lemma_single_base(heap, c as int, EXCEPTION, e);
        },
    }
}

} // verus!
