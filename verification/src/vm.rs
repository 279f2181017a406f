//! The interpreter state: the object store and the current scope, with the
//! attribute protocol and the scope chain.

use vstd::prelude::*;
use vstd::string::*;
use crate::namespace::{Bindings, ns_get, ns_set, lemma_ns_set};
use crate::objtype::{class_lookup, lookup};
use crate::pyobject::{
    Heap, PyObjectKind, PyContext, ExceptionKind, heap_extends, heap_dict_update, heap_ok,
    exception_class_spec, TYPE_TYPE,
};

verus! {

/// A value, or the error value that was raised instead.
pub type PyResult = Result<usize, usize>;

/// `after` is `before` with one more object, under the handle `e`: an error
/// value of kind `kind` with the message `message` and no cause.
pub open spec fn raised(before: Heap, after: Heap, e: usize, kind: ExceptionKind, message: Seq<char>) -> bool {
    &&& e == before.len()
    &&& after.len() == before.len() + 1
    &&& forall|i: int| 0 <= i < before.len() ==> #[trigger] after[i] == before[i]
    &&& after[e as int].typ == Some(exception_class_spec(kind))
    &&& after[e as int].kind matches PyObjectKind::Exception { kind: k, message: m, cause }
    &&& k == kind
    &&& m@ == message
    &&& cause is None
}

/// The bindings of the dictionary under `d`; empty where there is none.
pub open spec fn bindings_at(heap: Heap, d: int) -> Bindings {
    if 0 <= d < heap.len() {
        heap[d].bindings()
    } else {
        Seq::empty()
    }
}

/// The name of the class that is the type of `obj`; empty where it has none.
pub open spec fn class_name_at(heap: Heap, obj: int) -> Seq<char> {
    match heap[obj].typ {
        Some(t) => if t < heap.len() {
            match heap[t as int].kind {
                PyObjectKind::Class { name, .. } => name@,
                _ => Seq::empty(),
            }
        } else {
            Seq::empty()
        },
        None => Seq::empty(),
    }
}

/// The handle of the dictionary that holds the attributes of `obj` itself,
/// for the kinds that have one: a class, an instance and a scope have their
/// own; a module has that of the scope that is its namespace, or its
/// namespace itself where that is no scope.
pub open spec fn namespace_of(heap: Heap, obj: int) -> Option<usize> {
    match heap[obj].kind {
        PyObjectKind::Module { dict, .. } => match heap[dict as int].kind {
            PyObjectKind::Scope { locals, .. } => Some(locals),
            _ => Some(dict),
        },
        PyObjectKind::Class { dict, .. } => Some(dict),
        PyObjectKind::Instance { dict } => Some(dict),
        PyObjectKind::Scope { locals, .. } => Some(locals),
        _ => None,
    }
}

/// What the attribute `name` of `obj` resolves to: the binding in the
/// object's own namespace, else what its type and the bases of its type give.
pub open spec fn attr_lookup(heap: Heap, obj: int, name: Seq<char>) -> Option<usize> {
    let own = match namespace_of(heap, obj) {
        Some(d) => ns_get(bindings_at(heap, d as int), name),
        None => None,
    };
    if own is Some {
        own
    } else {
        match heap[obj].typ {
            Some(t) => class_lookup(heap, t as int, name),
            None => None,
        }
    }
}

/// What `name` resolves to from `scope`: the binding of its own namespace,
/// else what its parent gives.
pub open spec fn scope_lookup(heap: Heap, scope: int, name: Seq<char>) -> Option<usize>
    decreases scope,
{
    if 0 <= scope < heap.len() {
        match heap[scope].kind {
            PyObjectKind::Scope { locals, parent } => {
                let own = ns_get(bindings_at(heap, locals as int), name);
                if own is Some {
                    own
                } else {
                    match parent {
                        Some(p) => if p < scope {
                            scope_lookup(heap, p as int, name)
                        } else {
                            None
                        },
                        None => None,
                    }
                }
            },
            _ => None,
        }
    } else {
        None
    }
}

/// Through a chain of three scopes, the innermost inside the middle one
/// inside an outermost one: a name that the two inner namespaces do not bind
/// resolves from the innermost scope to what the outermost namespace binds it
/// to, and to nothing where that does not bind it either.
pub proof fn lemma_three_scopes(heap: Heap, s0: usize, s1: usize, s2: usize, name: Seq<char>)
    requires
        heap_ok(heap, heap.len() as int),
        s0 < heap.len(),
        s1 < heap.len(),
        s2 < heap.len(),
        heap[s0 as int].kind matches PyObjectKind::Scope { parent, .. } && parent is None,
        heap[s1 as int].kind matches PyObjectKind::Scope { locals, parent } && parent == Some(s0) && ns_get(
            bindings_at(heap, locals as int),
            name,
        ) is None,
        heap[s2 as int].kind matches PyObjectKind::Scope { locals, parent } && parent == Some(s1) && ns_get(
            bindings_at(heap, locals as int),
            name,
        ) is None,
    ensures
        heap[s0 as int].kind matches PyObjectKind::Scope { locals, .. } && scope_lookup(heap, s2 as int, name)
            == ns_get(bindings_at(heap, locals as int), name),
{
    assert(heap[s1 as int].ok(s1 as int, heap.len() as int));
    assert(heap[s2 as int].ok(s2 as int, heap.len() as int));
    assert(s0 < s1 && s1 < s2);
    let l0 = heap[s0 as int].kind->Scope_locals;
    assert(scope_lookup(heap, s0 as int, name) == ns_get(bindings_at(heap, l0 as int), name));
    assert(scope_lookup(heap, s1 as int, name) == scope_lookup(heap, s0 as int, name));
    assert(scope_lookup(heap, s2 as int, name) == scope_lookup(heap, s1 as int, name));
}

/// The message of the error for a missing attribute.
pub open spec fn attribute_error_message(class_name_at: Seq<char>, name: Seq<char>) -> Seq<char> {
    "'"@ + class_name_at + "' object has no attribute '"@ + name + "'"@
}

/// The message of the error for an unbound name.
pub open spec fn name_error_message(name: Seq<char>) -> Seq<char> {
    "name '"@ + name + "' is not defined"@
}

/// The message of the error for an object that takes no attributes.
pub open spec fn no_attributes_message(class_name_at: Seq<char>) -> Seq<char> {
    "'"@ + class_name_at + "' object does not take attributes"@
}

/// The interpreter state.
pub struct VirtualMachine {
    pub ctx: PyContext,
    pub current: usize,
}

impl VirtualMachine {
    /// The stored objects, by handle. The current scope is no part of it:
    /// contracts state `current` beside it.
    pub open spec fn heap(&self) -> Heap {
        self.ctx.heap()
    }

    /// The store is in order and the current scope is a scope in it.
    pub open spec fn wf(&self) -> bool {
        &&& self.ctx.wf()
        &&& self.current < self.heap().len()
        &&& self.heap()[self.current as int].kind is Scope
    }

    /// A fresh interpreter: the built-in objects, and an outermost scope with
    /// an empty namespace as the current scope.
    pub fn new() -> (vm: VirtualMachine)
        ensures
            vm.wf(),
            vm.heap()[vm.current as int].kind matches PyObjectKind::Scope { locals, parent } && parent is None
                && bindings_at(vm.heap(), locals as int) == Seq::<(Seq<char>, usize)>::empty(),
    {
        let mut ctx = PyContext::new();
        let locals = ctx.new_dict();
        let current = ctx.new_scope(locals, None);
        VirtualMachine { ctx, current }
    }

    /// The object store.
    pub fn context(&self) -> (ctx: &PyContext)
        ensures
            *ctx == self.ctx,
    {
        &self.ctx
    }

    /// The metaclass of new classes: the class `type`.
    pub fn get_type(&self) -> (id: usize)
        ensures
            id == TYPE_TYPE,
    {
        TYPE_TYPE
    }

    /// The namespace of the current scope itself, not a copy.
    pub fn get_locals(&self) -> (locals: usize)
        requires
            self.wf(),
        ensures
            self.heap()[self.current as int].kind matches PyObjectKind::Scope { locals: l, .. } && l == locals,
            locals < self.heap().len(),
    {
        assert(self.heap()[self.current as int].ok(self.current as int, self.heap().len() as int));
        match &self.ctx.objects[self.current].kind {
            PyObjectKind::Scope { locals, .. } => *locals,
            _ => 0,
        }
    }

    /// Stores an error value of the given kind, without a cause.
    pub fn new_error(&mut self, kind: ExceptionKind, message: String) -> (e: usize)
        requires
            old(self).wf(),
        ensures
            final(self).wf(),
            final(self).current == old(self).current,
            heap_extends(old(self).heap(), final(self).heap()),
            raised(old(self).heap(), final(self).heap(), e, kind, message@),
    {
        self.ctx.new_exception(kind, message, None)
    }

    /// Stores a `TypeError` with the given message.
    pub fn new_type_error(&mut self, message: String) -> (e: usize)
        requires
            old(self).wf(),
        ensures
            final(self).wf(),
            final(self).current == old(self).current,
            heap_extends(old(self).heap(), final(self).heap()),
            raised(old(self).heap(), final(self).heap(), e, ExceptionKind::TypeError, message@),
    {
        self.new_error(ExceptionKind::TypeError, message)
    }

    /// The name of the class of `obj`.
    pub fn class_name_of(&self, obj: usize) -> (name: String)
        requires
            self.wf(),
            obj < self.heap().len(),
        ensures
            name@ == class_name_at(self.heap(), obj as int),
    {
        assert(self.heap()[obj as int].ok(obj as int, self.heap().len() as int));
        match self.ctx.objects[obj].typ {
            Some(t) => match &self.ctx.objects[t].kind {
                PyObjectKind::Class { name, .. } => name.clone(),
                _ => String::new(),
            },
            None => String::new(),
        }
    }

    /// The handle of the dictionary that holds the attributes of `obj` itself.
    pub fn own_namespace(&self, obj: usize) -> (dict: Option<usize>)
        requires
            self.wf(),
            obj < self.heap().len(),
        ensures
            dict == namespace_of(self.heap(), obj as int),
            dict matches Some(d) ==> d < self.heap().len(),
    {
        assert(self.heap()[obj as int].ok(obj as int, self.heap().len() as int));
        match &self.ctx.objects[obj].kind {
            PyObjectKind::Module { dict, .. } => {
                assert(self.heap()[*dict as int].ok(*dict as int, self.heap().len() as int));
                match &self.ctx.objects[*dict].kind {
                    PyObjectKind::Scope { locals, .. } => Some(*locals),
                    _ => Some(*dict),
                }
            },
            PyObjectKind::Class { dict, .. } => Some(*dict),
            PyObjectKind::Instance { dict } => Some(*dict),
            PyObjectKind::Scope { locals, .. } => Some(*locals),
            _ => None,
        }
    }

    /// Resolves the attribute `name` of `obj`, without raising.
    pub fn find_attribute(&self, obj: usize, name: &String) -> (found: Option<usize>)
        requires
            self.wf(),
            obj < self.heap().len(),
        ensures
            found == attr_lookup(self.heap(), obj as int, name@),
            found matches Some(v) ==> v < self.heap().len(),
    {
        assert(self.heap()[obj as int].ok(obj as int, self.heap().len() as int));
        let own = match self.own_namespace(obj) {
            Some(d) => self.ctx.dict_get(d, name),
            None => None,
        };
        if own.is_some() {
            return own;
        }
        match self.ctx.objects[obj].typ {
            Some(t) => lookup(&self.ctx, t, name),
            None => None,
        }
    }

    /// Whether the attribute `name` of `obj` resolves.
    pub fn has_attribute(&self, obj: usize, name: &String) -> (yes: bool)
        requires
            self.wf(),
            obj < self.heap().len(),
        ensures
            yes == attr_lookup(self.heap(), obj as int, name@) is Some,
    {
        self.find_attribute(obj, name).is_some()
    }

    /// Resolves the attribute `name` of `obj`. Where nothing is found, an
    /// `AttributeError` is stored and returned that names the class of `obj`
    /// and the attribute; otherwise the store is unchanged.
    pub fn get_attribute(&mut self, obj: usize, name: &String) -> (r: PyResult)
        requires
            old(self).wf(),
            obj < old(self).heap().len(),
        ensures
            final(self).wf(),
            final(self).current == old(self).current,
            heap_extends(old(self).heap(), final(self).heap()),
            match r {
                Ok(v) => attr_lookup(old(self).heap(), obj as int, name@) == Some(v)
                    && final(self).heap() == old(self).heap() && v < old(self).heap().len(),
                Err(e) => attr_lookup(old(self).heap(), obj as int, name@) is None && raised(
                    old(self).heap(),
                    final(self).heap(),
                    e,
                    ExceptionKind::AttributeError,
                    attribute_error_message(class_name_at(old(self).heap(), obj as int), name@),
                ),
            },
    {
        match self.find_attribute(obj, name) {
            Some(v) => Ok(v),
            None => {
                let mut message = String::from_str("'");
                let class_name = self.class_name_of(obj);
                message.append(class_name.as_str());
                message.append("' object has no attribute '");
                message.append(name.as_str());
                message.append("'");
                Err(self.new_error(ExceptionKind::AttributeError, message))
            },
        }
    }

    /// Binds the attribute `name` of `obj` to `value` in the object's own
    /// namespace, never in that of its type. An object without a namespace of
    /// its own gives a `TypeError` and is left as it is.
    pub fn set_attribute(&mut self, obj: usize, name: String, value: usize) -> (r: Result<(), usize>)
        requires
            old(self).wf(),
            obj < old(self).heap().len(),
            value < old(self).heap().len(),
        ensures
            final(self).wf(),
            final(self).current == old(self).current,
            heap_extends(old(self).heap(), final(self).heap()),
            match r {
                Ok(_) => namespace_of(old(self).heap(), obj as int) matches Some(d) && heap_dict_update(
                    old(self).heap(),
                    final(self).heap(),
                    d as int,
                    ns_set(old(self).heap()[d as int].bindings(), name@, value),
                ) && attr_lookup(final(self).heap(), obj as int, name@) == Some(value),
                Err(e) => !(namespace_of(old(self).heap(), obj as int) matches Some(d) && old(self).heap()[d as int].kind is Dict)
                    && raised(
                    old(self).heap(),
                    final(self).heap(),
                    e,
                    ExceptionKind::TypeError,
                    no_attributes_message(class_name_at(old(self).heap(), obj as int)),
                ),
            },
    {
        let ghost key = name@;
        let done = match self.own_namespace(obj) {
            Some(d) => {
                proof {
                    assert(self.heap()[d as int].ok(d as int, self.heap().len() as int));
                    lemma_ns_set(self.heap()[d as int].bindings(), key, value);
                }
                self.ctx.dict_set(d, name, value)
            },
            None => false,
        };
        if done {
            Ok(())
        } else {
            let mut message = String::from_str("'");
            let class_name = self.class_name_of(obj);
            message.append(class_name.as_str());
            message.append("' object does not take attributes");
            Err(self.new_error(ExceptionKind::TypeError, message))
        }
    }

    /// Resolves `name` from `scope` outwards, without raising.
    pub fn find_name(&self, scope: usize, name: &String) -> (found: Option<usize>)
        requires
            self.wf(),
            scope < self.heap().len(),
        ensures
            found == scope_lookup(self.heap(), scope as int, name@),
            found matches Some(v) ==> v < self.heap().len(),
        decreases scope,
    {
        assert(self.heap()[scope as int].ok(scope as int, self.heap().len() as int));
        match &self.ctx.objects[scope].kind {
            PyObjectKind::Scope { locals, parent } => {
                let own = self.ctx.dict_get(*locals, name);
                if own.is_some() {
                    return own;
                }
                match parent {
                    Some(p) => self.find_name(*p, name),
                    None => None,
                }
            },
            _ => None,
        }
    }

    /// Resolves `name` from `scope` outwards. Where the chain ends without a
    /// binding, a `NameError` is stored and returned; otherwise the store is
    /// unchanged.
    pub fn resolve(&mut self, scope: usize, name: &String) -> (r: PyResult)
        requires
            old(self).wf(),
            scope < old(self).heap().len(),
        ensures
            final(self).wf(),
            final(self).current == old(self).current,
            heap_extends(old(self).heap(), final(self).heap()),
            match r {
                Ok(v) => scope_lookup(old(self).heap(), scope as int, name@) == Some(v)
                    && final(self).heap() == old(self).heap() && v < old(self).heap().len(),
                Err(e) => scope_lookup(old(self).heap(), scope as int, name@) is None && raised(
                    old(self).heap(),
                    final(self).heap(),
                    e,
                    ExceptionKind::NameError,
                    name_error_message(name@),
                ),
            },
    {
        match self.find_name(scope, name) {
            Some(v) => Ok(v),
            None => {
                let mut message = String::from_str("name '");
                message.append(name.as_str());
                message.append("' is not defined");
                Err(self.new_error(ExceptionKind::NameError, message))
            },
        }
    }

    /// Binds `name` to `value` in the namespace of `scope` itself, never in
    /// that of a parent. Says whether `scope` is a scope over a dictionary; if
    /// it is not, nothing changes.
    pub fn bind(&mut self, scope: usize, name: String, value: usize) -> (done: bool)
        requires
            old(self).wf(),
            scope < old(self).heap().len(),
            value < old(self).heap().len(),
        ensures
            final(self).wf(),
            final(self).current == old(self).current,
            heap_extends(old(self).heap(), final(self).heap()),
            done == (old(self).heap()[scope as int].kind matches PyObjectKind::Scope { locals, .. }
                && old(self).heap()[locals as int].kind is Dict),
            done ==> (old(self).heap()[scope as int].kind matches PyObjectKind::Scope { locals, .. }
                && heap_dict_update(
                old(self).heap(),
                final(self).heap(),
                locals as int,
                ns_set(old(self).heap()[locals as int].bindings(), name@, value),
            ) && scope_lookup(final(self).heap(), scope as int, name@) == Some(value)),
            !done ==> final(self).heap() == old(self).heap(),
    {
        assert(self.heap()[scope as int].ok(scope as int, self.heap().len() as int));
        let target = match &self.ctx.objects[scope].kind {
            PyObjectKind::Scope { locals, .. } => Some(*locals),
            _ => None,
        };
        match target {
            Some(locals) => {
                proof {
                    assert(self.heap()[locals as int].ok(locals as int, self.heap().len() as int));
                    lemma_ns_set(self.heap()[locals as int].bindings(), name@, value);
                }
                self.ctx.dict_set(locals, name, value)
            },
            None => false,
        }
    }
}

} // verus!

verus! {

/// The positional arguments of a call.
pub struct PyFuncArgs {
    pub args: Vec<usize>,
}

impl PyFuncArgs {
    /// No arguments.
    pub fn default() -> (args: PyFuncArgs)
        ensures
            args.args@ == Seq::<usize>::empty(),
    {
        PyFuncArgs { args: Vec::new() }
    }

    /// Takes the first argument off.
    pub fn shift(&mut self) -> (first: usize)
        requires
            old(self).args@.len() > 0,
        ensures
            first == old(self).args@[0],
            final(self).args@ == old(self).args@.subrange(1, old(self).args@.len() as int),
    {
        let first = self.args.remove(0);
        assert(self.args@ =~= old(self).args@.subrange(1, old(self).args@.len() as int));
        first
    }
}

/// Work that only the side that drives the interpreter can do.
pub enum Request {
    /// Execute the code object `code` in the scope `scope`.
    Run { code: usize, scope: usize },
    /// Compile `source` to a code object.
    Compile { source: String },
    /// Write `text` to the standard output.
    Print { text: String },
}

/// How a call ends.
pub enum Outcome {
    /// With a value.
    Return(usize),
    /// With an error value.
    Raise(usize),
    /// With work for the driver. Where `then` holds none, the call ends as the
    /// work does. Where it holds a value, an error of the work is still the
    /// call's error; if the work ends without one, the call's value is the
    /// one held and what the work yields is dropped.
    Defer { request: Request, then: Option<usize> },
}

impl Outcome {
    /// Every handle in the outcome is below `bound`.
    pub open spec fn within(&self, bound: int) -> bool {
        match *self {
            Outcome::Return(v) => v < bound,
            Outcome::Raise(e) => e < bound,
            Outcome::Defer { request, then } => {
                &&& then matches Some(v) ==> v < bound
                &&& request matches Request::Run { code, scope } ==> code < bound && scope < bound
            },
        }
    }
}

/// Every argument is a handle below `bound`.
pub open spec fn args_within(args: Seq<usize>, bound: int) -> bool {
    forall|k: int| 0 <= k < args.len() ==> #[trigger] args[k] < bound
}

/// The call ended with a new error value of kind `kind` and message
/// `message`, and changed nothing else.
pub open spec fn raises(before: Heap, after: Heap, out: Outcome, kind: ExceptionKind, message: Seq<char>) -> bool {
    out matches Outcome::Raise(e) && raised(before, after, e, kind, message)
}

/// The call ended with the value `v` and changed nothing.
pub open spec fn returns_value(before: Heap, after: Heap, out: Outcome, v: usize) -> bool {
    out == Outcome::Return(v) && after == before
}

} // verus!
