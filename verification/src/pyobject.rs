//! The object store: every value of the runtime, its kind and its type.

use vstd::prelude::*;
use crate::namespace::{Entry, Bindings, bindings_of, ns_distinct, ns_get, ns_set, entries_get, entries_set};

verus! {

/// The built-in error kinds.
#[derive(Clone, Copy, Debug, PartialEq, Eq, Structural)]
pub enum ExceptionKind {
    BaseException,
    Exception,
    AssertionError,
    AttributeError,
    NameError,
    RuntimeError,
    NotImplementedError,
    TypeError,
    ValueError,
}

/// The operations that the runtime itself implements and offers as callables.
#[derive(Clone, Copy, Debug, PartialEq, Eq, Structural)]
pub enum NativeOp {
    All,
    Any,
    Chr,
    Compile,
    Dir,
    Eval,
    Getattr,
    Hasattr,
    Id,
    Isinstance,
    Len,
    Locals,
    Print,
    Range,
    Setattr,
    BuildClass,
}

/// What a value is. Handles (`usize`) refer to other objects of the store.
#[derive(Debug)]
#[allow(inconsistent_fields)]
pub enum PyObjectKind {
    NoneValue,
    Boolean { value: bool },
    Integer { value: i64 },
    String { value: String },
    Tuple { elements: Vec<usize> },
    List { elements: Vec<usize> },
    Dict { elements: Vec<Entry> },
    Scope { locals: usize, parent: Option<usize> },
    Module { name: String, dict: usize },
    RustFunction { op: NativeOp },
    Function { code: usize, scope: usize },
    Code { params: Vec<String>, token: u64 },
    Class { name: String, bases: Vec<usize>, dict: usize },
    Instance { dict: usize },
    Exception { kind: ExceptionKind, message: String, cause: Option<usize> },
}

/// A stored value: its kind and the handle of its type, if it has one.
#[derive(Debug)]
pub struct PyObject {
    pub kind: PyObjectKind,
    pub typ: Option<usize>,
}

/// The contents of the object store, by handle.
pub type Heap = Seq<PyObject>;

impl PyObject {
    /// The bindings of a dictionary; empty for every other kind.
    pub open spec fn bindings(&self) -> Bindings {
        match self.kind {
            PyObjectKind::Dict { elements } => bindings_of(elements@),
            _ => Seq::empty(),
        }
    }

    /// The object refers only to handles below `bound`, its bases and its
    /// parent scope were allocated before the object itself (handle `id`),
    /// and a dictionary binds no name twice.
    pub open spec fn ok(&self, id: int, bound: int) -> bool {
        &&& self.typ matches Some(t) ==> t < bound
        &&& match self.kind {
            PyObjectKind::Tuple { elements } => forall|k: int|
                0 <= k < elements@.len() ==> #[trigger] elements@[k] < bound,
            PyObjectKind::List { elements } => forall|k: int|
                0 <= k < elements@.len() ==> #[trigger] elements@[k] < bound,
            PyObjectKind::Dict { elements } => {
                &&& ns_distinct(bindings_of(elements@))
                &&& forall|k: int|
                    0 <= k < elements@.len() ==> (#[trigger] elements@[k]).value < bound
            },
            PyObjectKind::Scope { locals, parent } => {
                &&& locals < bound
                &&& parent matches Some(p) ==> p < id
            },
            PyObjectKind::Module { dict, .. } => dict < bound,
            PyObjectKind::Function { code, scope } => code < bound && scope < bound,
            PyObjectKind::Class { bases, dict, .. } => {
                &&& dict < bound
                &&& forall|k: int| 0 <= k < bases@.len() ==> #[trigger] bases@[k] < id
            },
            PyObjectKind::Instance { dict } => dict < bound,
            PyObjectKind::Exception { cause, .. } => cause matches Some(c) ==> c < bound,
            _ => true,
        }
    }
}

/// Every object of `heap` is in order, with the handles below `bound` allowed.
pub open spec fn heap_ok(heap: Heap, bound: int) -> bool {
    forall|i: int| 0 <= i < heap.len() ==> (#[trigger] heap[i]).ok(i, bound)
}

/// `after` holds every object of `before` under the same handle, with the same
/// type; only the bindings of dictionaries may differ.
pub open spec fn heap_extends(before: Heap, after: Heap) -> bool {
    &&& before.len() <= after.len()
    &&& forall|i: int|
        0 <= i < before.len() ==> {
            ||| #[trigger] after[i] == before[i]
            ||| (before[i].kind is Dict && after[i].kind is Dict && after[i].typ == before[i].typ)
        }
}

/// `after` is `before` but for the bindings of the dictionary `d`, which are `b`.
pub open spec fn heap_dict_update(before: Heap, after: Heap, d: int, b: Bindings) -> bool {
    &&& after.len() == before.len()
    &&& 0 <= d < before.len()
    &&& before[d].kind is Dict
    &&& after[d].kind is Dict
    &&& after[d].typ == before[d].typ
    &&& after[d].bindings() == b
    &&& forall|i: int| 0 <= i < before.len() && i != d ==> #[trigger] after[i] == before[i]
}

} // verus!

verus! {

/// Handle of the class `object`.
pub const OBJECT: usize = 1;

/// Handle of the class `type`.
pub const TYPE_TYPE: usize = 3;

/// Handle of the class `int`.
pub const INT_TYPE: usize = 5;

/// Handle of the class `str`.
pub const STR_TYPE: usize = 7;

/// Handle of the class `bool`.
pub const BOOL_TYPE: usize = 9;

/// Handle of the class `dict`.
pub const DICT_TYPE: usize = 11;

/// Handle of the class `list`.
pub const LIST_TYPE: usize = 13;

/// Handle of the class `tuple`.
pub const TUPLE_TYPE: usize = 15;

/// Handle of the class `function`.
pub const FUNCTION_TYPE: usize = 17;

/// Handle of the class `NoneType`.
pub const NONE_TYPE: usize = 19;

/// Handle of the class `BaseException`.
pub const BASE_EXCEPTION: usize = 21;

/// Handle of the class `Exception`.
pub const EXCEPTION: usize = 23;

/// Handle of the class `AssertionError`.
pub const ASSERTION_ERROR: usize = 25;

/// Handle of the class `AttributeError`.
pub const ATTRIBUTE_ERROR: usize = 27;

/// Handle of the class `NameError`.
pub const NAME_ERROR: usize = 29;

/// Handle of the class `RuntimeError`.
pub const RUNTIME_ERROR: usize = 31;

/// Handle of the class `NotImplementedError`.
pub const NOT_IMPLEMENTED_ERROR: usize = 33;

/// Handle of the class `TypeError`.
pub const TYPE_ERROR: usize = 35;

/// Handle of the class `ValueError`.
pub const VALUE_ERROR: usize = 37;

/// Handle of the value `None`.
pub const NONE: usize = 38;

/// Handle of the value `True`.
pub const TRUE: usize = 39;

/// Handle of the value `False`.
pub const FALSE: usize = 40;

/// Number of objects that every store starts with.
pub const CORE_LEN: usize = 41;

/// The object under `id` is the class `name` with the bases `bases`; its
/// namespace is the dictionary allocated just before it.
pub open spec fn class_at(heap: Heap, id: int, name: Seq<char>, bases: Seq<usize>) -> bool {
    &&& 0 < id < heap.len()
    &&& heap[id].typ == (if id == TYPE_TYPE { None } else { Some(TYPE_TYPE) })
    &&& heap[id].kind matches PyObjectKind::Class { name: n, bases: b, dict: d }
    &&& n@ == name
    &&& b@ =~= bases
    &&& d == id - 1
    &&& heap[id - 1].kind is Dict
}

/// The built-in classes and the three constant values stand under their
/// handles.
pub open spec fn core_ok(heap: Heap) -> bool {
    &&& heap.len() >= CORE_LEN
    &&& class_at(heap, OBJECT as int, "object"@, seq![])
    &&& class_at(heap, TYPE_TYPE as int, "type"@, seq![OBJECT])
    &&& class_at(heap, INT_TYPE as int, "int"@, seq![OBJECT])
    &&& class_at(heap, STR_TYPE as int, "str"@, seq![OBJECT])
    &&& class_at(heap, BOOL_TYPE as int, "bool"@, seq![OBJECT])
    &&& class_at(heap, DICT_TYPE as int, "dict"@, seq![OBJECT])
    &&& class_at(heap, LIST_TYPE as int, "list"@, seq![OBJECT])
    &&& class_at(heap, TUPLE_TYPE as int, "tuple"@, seq![OBJECT])
    &&& class_at(heap, FUNCTION_TYPE as int, "function"@, seq![OBJECT])
    &&& class_at(heap, NONE_TYPE as int, "NoneType"@, seq![OBJECT])
    &&& class_at(heap, BASE_EXCEPTION as int, "BaseException"@, seq![OBJECT])
    &&& class_at(heap, EXCEPTION as int, "Exception"@, seq![BASE_EXCEPTION])
    &&& class_at(heap, ASSERTION_ERROR as int, "AssertionError"@, seq![EXCEPTION])
    &&& class_at(heap, ATTRIBUTE_ERROR as int, "AttributeError"@, seq![EXCEPTION])
    &&& class_at(heap, NAME_ERROR as int, "NameError"@, seq![EXCEPTION])
    &&& class_at(heap, RUNTIME_ERROR as int, "RuntimeError"@, seq![EXCEPTION])
    &&& class_at(heap, NOT_IMPLEMENTED_ERROR as int, "NotImplementedError"@, seq![RUNTIME_ERROR])
    &&& class_at(heap, TYPE_ERROR as int, "TypeError"@, seq![EXCEPTION])
    &&& class_at(heap, VALUE_ERROR as int, "ValueError"@, seq![EXCEPTION])
    &&& heap[NONE as int].kind is NoneValue
    &&& heap[NONE as int].typ == Some(NONE_TYPE)
    &&& heap[TRUE as int].kind == (PyObjectKind::Boolean { value: true })
    &&& heap[TRUE as int].typ == Some(BOOL_TYPE)
    &&& heap[FALSE as int].kind == (PyObjectKind::Boolean { value: false })
    &&& heap[FALSE as int].typ == Some(BOOL_TYPE)
}

/// Objects are only ever added, and only dictionaries change: the built-in
/// classes and constants stay what they are.
pub proof fn lemma_core_preserved(before: Heap, after: Heap)
    requires
        core_ok(before),
        heap_extends(before, after),
    ensures
        core_ok(after),
{
    assert(forall|i: int| 0 <= i < before.len() && !(before[i].kind is Dict) ==> #[trigger] after[i] == before[i]);
    assert(forall|i: int| 0 <= i < before.len() ==> ((#[trigger] after[i]).kind is Dict <==> before[i].kind is Dict));
}

/// Pushes a class and, before it, the dictionary that is its namespace.
fn push_class(objects: &mut Vec<PyObject>, name: &str, bases: Vec<usize>)
    requires
        heap_ok(old(objects)@, CORE_LEN as int),
        old(objects)@.len() + 2 <= CORE_LEN,
        forall|k: int| 0 <= k < bases@.len() ==> #[trigger] bases@[k] <= old(objects)@.len(),
    ensures
        heap_ok(final(objects)@, CORE_LEN as int),
        final(objects)@.len() == old(objects)@.len() + 2,
        forall|i: int| 0 <= i < old(objects)@.len() ==> #[trigger] final(objects)@[i] == old(objects)@[i],
        class_at(final(objects)@, (old(objects)@.len() + 1) as int, name@, bases@),
{
    let id = objects.len() + 1;
    let typ = if id == TYPE_TYPE { None } else { Some(TYPE_TYPE) };
    objects.push(PyObject { kind: PyObjectKind::Dict { elements: Vec::new() }, typ: Some(DICT_TYPE) });
    assert(bindings_of(Seq::<Entry>::empty()) =~= Seq::empty());
    objects.push(PyObject { kind: PyObjectKind::Class { name: String::from_str(name), bases, dict: id - 1 }, typ });
}

/// The object store, with the built-in classes and constants in it.
pub struct PyContext {
    pub objects: Vec<PyObject>,
}

impl PyContext {
    /// The stored objects, by handle.
    pub open spec fn heap(&self) -> Heap {
        self.objects@
    }

    /// Every stored object is in order and the built-in objects are in place.
    pub open spec fn wf(&self) -> bool {
        heap_ok(self.heap(), self.heap().len() as int) && core_ok(self.heap())
    }

    /// A store that holds the built-in classes and constants and nothing else.
    pub fn new() -> (ctx: PyContext)
        ensures
            ctx.wf(),
            ctx.heap().len() == CORE_LEN,
    {
        let mut objects: Vec<PyObject> = Vec::new();
        push_class(&mut objects, "object", Vec::new());
        push_class(&mut objects, "type", vec![OBJECT]);
        push_class(&mut objects, "int", vec![OBJECT]);
        push_class(&mut objects, "str", vec![OBJECT]);
        push_class(&mut objects, "bool", vec![OBJECT]);
        push_class(&mut objects, "dict", vec![OBJECT]);
        push_class(&mut objects, "list", vec![OBJECT]);
        push_class(&mut objects, "tuple", vec![OBJECT]);
        push_class(&mut objects, "function", vec![OBJECT]);
        push_class(&mut objects, "NoneType", vec![OBJECT]);
        push_class(&mut objects, "BaseException", vec![OBJECT]);
        push_class(&mut objects, "Exception", vec![BASE_EXCEPTION]);
        push_class(&mut objects, "AssertionError", vec![EXCEPTION]);
        push_class(&mut objects, "AttributeError", vec![EXCEPTION]);
        push_class(&mut objects, "NameError", vec![EXCEPTION]);
        push_class(&mut objects, "RuntimeError", vec![EXCEPTION]);
        push_class(&mut objects, "NotImplementedError", vec![RUNTIME_ERROR]);
        push_class(&mut objects, "TypeError", vec![EXCEPTION]);
        push_class(&mut objects, "ValueError", vec![EXCEPTION]);
        objects.push(PyObject { kind: PyObjectKind::NoneValue, typ: Some(NONE_TYPE) });
        objects.push(PyObject { kind: PyObjectKind::Boolean { value: true }, typ: Some(BOOL_TYPE) });
        objects.push(PyObject { kind: PyObjectKind::Boolean { value: false }, typ: Some(BOOL_TYPE) });
        PyContext { objects }
    }

    /// Stores `obj` and returns its handle: the number of objects stored
    /// before it.
    pub fn new_object(&mut self, obj: PyObject) -> (id: usize)
        requires
            old(self).wf(),
            obj.ok(old(self).heap().len() as int, (old(self).heap().len() + 1) as int),
        ensures
            final(self).wf(),
            id == old(self).heap().len(),
            final(self).heap() == old(self).heap().push(obj),
            heap_extends(old(self).heap(), final(self).heap()),
    {
        let id = self.objects.len();
        self.objects.push(obj);
        proof {
            lemma_core_preserved(old(self).heap(), self.heap());
        }
        id
    }

    /// Binds `key` to `value` in the dictionary `d`. Says whether `d` is a
    /// dictionary; if it is not, nothing changes.
    pub fn dict_set(&mut self, d: usize, key: String, value: usize) -> (done: bool)
        requires
            old(self).wf(),
            d < old(self).heap().len(),
            value < old(self).heap().len(),
        ensures
            final(self).wf(),
            done == (old(self).heap()[d as int].kind is Dict),
            done ==> heap_dict_update(
                old(self).heap(),
                final(self).heap(),
                d as int,
                ns_set(old(self).heap()[d as int].bindings(), key@, value),
            ),
            !done ==> final(self).heap() == old(self).heap(),
            heap_extends(old(self).heap(), final(self).heap()),
    {
        assert(self.heap()[d as int].ok(d as int, self.heap().len() as int));
        let ghost b = ns_set(self.heap()[d as int].bindings(), key@, value);
        let done = match &mut self.objects[d].kind {
            PyObjectKind::Dict { elements } => {
                entries_set(elements, key, value);
                true
            },
            _ => false,
        };
        proof {
            if done {
                let after = self.heap();
                let before = old(self).heap();
                assert(after[d as int].bindings() == b);
                assert forall|k: int| 0 <= k < b.len() implies (#[trigger] b[k]).1 < after.len() by {
                    if b[k] != (key@, value) {
                        assert(before[d as int].bindings()[k] == b[k]);
                    }
                }
                assert forall|i: int| 0 <= i < after.len() implies (#[trigger] after[i]).ok(i, after.len() as int) by {
                    if i != d {
                        assert(after[i] == before[i]);
                        assert(before[i].ok(i, before.len() as int));
                    } else {
                        let elements = after[i].kind->Dict_elements;
                        assert forall|k: int| 0 <= k < elements@.len() implies (#[trigger] elements@[k]).value < after.len() by {
                            assert(b[k].1 == elements@[k].value);
                        }
                    }
                }
            }
            lemma_core_preserved(old(self).heap(), self.heap());
        }
        done
    }

    /// Looks `key` up in the dictionary `d`; nothing is found in an object of
    /// another kind.
    pub fn dict_get(&self, d: usize, key: &String) -> (found: Option<usize>)
        requires
            self.wf(),
            d < self.heap().len(),
        ensures
            found == ns_get(self.heap()[d as int].bindings(), key@),
            found matches Some(v) ==> v < self.heap().len(),
    {
        assert(self.heap()[d as int].ok(d as int, self.heap().len() as int));
        match &self.objects[d].kind {
            PyObjectKind::Dict { elements } => {
                let found = entries_get(elements, key);
                proof {
                    if found is Some {
                        let b = bindings_of(elements@);
                        let k = crate::namespace::ns_pos(b, key@);
                        assert(b[k].1 == elements@[k].value);
                    }
                }
                found
            },
            _ => None,
        }
    }
}

} // verus!

verus! {

/// The handle of the class that stands for an error kind.
pub open spec fn exception_class_spec(kind: ExceptionKind) -> usize {
    match kind {
        ExceptionKind::BaseException => BASE_EXCEPTION,
        ExceptionKind::Exception => EXCEPTION,
        ExceptionKind::AssertionError => ASSERTION_ERROR,
        ExceptionKind::AttributeError => ATTRIBUTE_ERROR,
        ExceptionKind::NameError => NAME_ERROR,
        ExceptionKind::RuntimeError => RUNTIME_ERROR,
        ExceptionKind::NotImplementedError => NOT_IMPLEMENTED_ERROR,
        ExceptionKind::TypeError => TYPE_ERROR,
        ExceptionKind::ValueError => VALUE_ERROR,
    }
}

/// The handle of the class that stands for an error kind.
#[verifier::when_used_as_spec(exception_class_spec)]
pub fn exception_class(kind: ExceptionKind) -> (class: usize)
    ensures
        class == exception_class_spec(kind),
{
    match kind {
        ExceptionKind::BaseException => BASE_EXCEPTION,
        ExceptionKind::Exception => EXCEPTION,
        ExceptionKind::AssertionError => ASSERTION_ERROR,
        ExceptionKind::AttributeError => ATTRIBUTE_ERROR,
        ExceptionKind::NameError => NAME_ERROR,
        ExceptionKind::RuntimeError => RUNTIME_ERROR,
        ExceptionKind::NotImplementedError => NOT_IMPLEMENTED_ERROR,
        ExceptionKind::TypeError => TYPE_ERROR,
        ExceptionKind::ValueError => VALUE_ERROR,
    }
}

/// `after` is `before` with `obj` added under the handle `id`.
pub open spec fn stored(before: Heap, after: Heap, id: usize, obj: PyObject) -> bool {
    &&& id == before.len()
    &&& after == before.push(obj)
    &&& heap_extends(before, after)
}

impl PyContext {
    /// A new integer.
    pub fn new_int(&mut self, value: i64) -> (id: usize)
        requires
            old(self).wf(),
        ensures
            final(self).wf(),
            stored(old(self).heap(), final(self).heap(), id, PyObject { kind: PyObjectKind::Integer { value }, typ: Some(INT_TYPE) }),
    {
        self.new_object(PyObject { kind: PyObjectKind::Integer { value }, typ: Some(INT_TYPE) })
    }

    /// A new string.
    pub fn new_str(&mut self, value: String) -> (id: usize)
        requires
            old(self).wf(),
        ensures
            final(self).wf(),
            stored(old(self).heap(), final(self).heap(), id, PyObject { kind: PyObjectKind::String { value }, typ: Some(STR_TYPE) }),
    {
        self.new_object(PyObject { kind: PyObjectKind::String { value }, typ: Some(STR_TYPE) })
    }

    /// The handle of `True` or of `False`; nothing is stored.
    pub fn new_bool(&self, value: bool) -> (id: usize)
        requires
            self.wf(),
        ensures
            id == if value { TRUE } else { FALSE },
            self.heap()[id as int].kind == (PyObjectKind::Boolean { value }),
    {
        if value { TRUE } else { FALSE }
    }

    /// The handle of `None`; nothing is stored.
    pub fn new_none(&self) -> (id: usize)
        requires
            self.wf(),
        ensures
            id == NONE,
            self.heap()[id as int].kind is NoneValue,
    {
        NONE
    }

    /// A new, empty dictionary.
    pub fn new_dict(&mut self) -> (id: usize)
        requires
            old(self).wf(),
        ensures
            final(self).wf(),
            id == old(self).heap().len(),
            final(self).heap().len() == id + 1,
            heap_extends(old(self).heap(), final(self).heap()),
            forall|i: int| 0 <= i < id ==> #[trigger] final(self).heap()[i] == old(self).heap()[i],
            final(self).heap()[id as int].kind is Dict,
            final(self).heap()[id as int].typ == Some(DICT_TYPE),
            final(self).heap()[id as int].bindings() == Seq::<(Seq<char>, usize)>::empty(),
    {
        let elements: Vec<Entry> = Vec::new();
        assert(bindings_of(elements@) =~= Seq::empty());
        self.new_object(PyObject { kind: PyObjectKind::Dict { elements }, typ: Some(DICT_TYPE) })
    }

    /// A new list of the given elements.
    pub fn new_list(&mut self, elements: Vec<usize>) -> (id: usize)
        requires
            old(self).wf(),
            forall|k: int| 0 <= k < elements@.len() ==> #[trigger] elements@[k] < old(self).heap().len(),
        ensures
            final(self).wf(),
            stored(old(self).heap(), final(self).heap(), id, PyObject { kind: PyObjectKind::List { elements }, typ: Some(LIST_TYPE) }),
    {
        self.new_object(PyObject { kind: PyObjectKind::List { elements }, typ: Some(LIST_TYPE) })
    }

    /// A new tuple of the given elements.
    pub fn new_tuple(&mut self, elements: Vec<usize>) -> (id: usize)
        requires
            old(self).wf(),
            forall|k: int| 0 <= k < elements@.len() ==> #[trigger] elements@[k] < old(self).heap().len(),
        ensures
            final(self).wf(),
            stored(old(self).heap(), final(self).heap(), id, PyObject { kind: PyObjectKind::Tuple { elements }, typ: Some(TUPLE_TYPE) }),
    {
        self.new_object(PyObject { kind: PyObjectKind::Tuple { elements }, typ: Some(TUPLE_TYPE) })
    }

    /// A new callable that stands for one of the runtime's own operations.
    pub fn new_rustfunc(&mut self, op: NativeOp) -> (id: usize)
        requires
            old(self).wf(),
        ensures
            final(self).wf(),
            stored(old(self).heap(), final(self).heap(), id, PyObject { kind: PyObjectKind::RustFunction { op }, typ: Some(FUNCTION_TYPE) }),
    {
        self.new_object(PyObject { kind: PyObjectKind::RustFunction { op }, typ: Some(FUNCTION_TYPE) })
    }

    /// A new code object: the names of its parameters and the token by which
    /// the executing side knows its instructions.
    pub fn new_code(&mut self, params: Vec<String>, token: u64) -> (id: usize)
        requires
            old(self).wf(),
        ensures
            final(self).wf(),
            stored(old(self).heap(), final(self).heap(), id, PyObject { kind: PyObjectKind::Code { params, token }, typ: Some(OBJECT) }),
    {
        self.new_object(PyObject { kind: PyObjectKind::Code { params, token }, typ: Some(OBJECT) })
    }

    /// A new user-defined function: a code object and the scope it was
    /// defined in.
    pub fn new_function(&mut self, code: usize, scope: usize) -> (id: usize)
        requires
            old(self).wf(),
            code < old(self).heap().len(),
            scope < old(self).heap().len(),
        ensures
            final(self).wf(),
            stored(old(self).heap(), final(self).heap(), id, PyObject { kind: PyObjectKind::Function { code, scope }, typ: Some(FUNCTION_TYPE) }),
    {
        self.new_object(PyObject { kind: PyObjectKind::Function { code, scope }, typ: Some(FUNCTION_TYPE) })
    }

    /// A new scope over the namespace `locals`, inside `parent`.
    pub fn new_scope(&mut self, locals: usize, parent: Option<usize>) -> (id: usize)
        requires
            old(self).wf(),
            locals < old(self).heap().len(),
            parent matches Some(p) ==> p < old(self).heap().len(),
        ensures
            final(self).wf(),
            stored(old(self).heap(), final(self).heap(), id, PyObject { kind: PyObjectKind::Scope { locals, parent }, typ: Some(TYPE_TYPE) }),
    {
        self.new_object(PyObject { kind: PyObjectKind::Scope { locals, parent }, typ: Some(TYPE_TYPE) })
    }

    /// A new module named `name` whose namespace is `dict`.
    pub fn new_module(&mut self, name: String, dict: usize) -> (id: usize)
        requires
            old(self).wf(),
            dict < old(self).heap().len(),
        ensures
            final(self).wf(),
            stored(old(self).heap(), final(self).heap(), id, PyObject { kind: PyObjectKind::Module { name, dict }, typ: Some(TYPE_TYPE) }),
    {
        self.new_object(PyObject { kind: PyObjectKind::Module { name, dict }, typ: Some(TYPE_TYPE) })
    }

    /// A new instance of `class`, with an empty namespace of its own, which is
    /// stored just before it.
    pub fn new_instance(&mut self, class: usize) -> (id: usize)
        requires
            old(self).wf(),
            class < old(self).heap().len(),
        ensures
            final(self).wf(),
            id == old(self).heap().len() + 1,
            final(self).heap().len() == id + 1,
            heap_extends(old(self).heap(), final(self).heap()),
            forall|i: int| 0 <= i < old(self).heap().len() ==> #[trigger] final(self).heap()[i] == old(self).heap()[i],
            final(self).heap()[id - 1].kind is Dict,
            final(self).heap()[id - 1].bindings() == Seq::<(Seq<char>, usize)>::empty(),
            final(self).heap()[id as int].kind == (PyObjectKind::Instance { dict: (id - 1) as usize }),
            final(self).heap()[id as int].typ == Some(class),
    {
        let dict = self.new_dict();
        self.new_object(PyObject { kind: PyObjectKind::Instance { dict }, typ: Some(class) })
    }

    /// A new error value of the given kind; its type is the class of that
    /// kind.
    pub fn new_exception(&mut self, kind: ExceptionKind, message: String, cause: Option<usize>) -> (id: usize)
        requires
            old(self).wf(),
            cause matches Some(c) ==> c < old(self).heap().len(),
        ensures
            final(self).wf(),
            stored(old(self).heap(), final(self).heap(), id, PyObject { kind: PyObjectKind::Exception { kind, message, cause }, typ: Some(exception_class_spec(kind)) }),
    {
        self.new_object(PyObject { kind: PyObjectKind::Exception { kind, message, cause }, typ: Some(exception_class(kind)) })
    }

    /// The identity of a value: its handle. Two values have the same identity
    /// only if they are the same handle, and a handle never changes.
    pub fn get_id(&self, obj: usize) -> (token: usize)
        ensures
            token == obj,
    {
        obj
    }
}

} // verus!
