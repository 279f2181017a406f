//! The builtin functions: clients of the attribute, invocation and class
//! construction protocols.

use vstd::prelude::*;
use vstd::string::*;
use crate::namespace::{Bindings, Entry, bindings_of, entries_clone, entries_set, ns_distinct, ns_set, ns_below, lemma_ns_set_below};
use crate::objtype::{is_instance, isinstance};
use crate::pyobject::{
    Heap, PyObject, PyObjectKind, PyContext, ExceptionKind, NativeOp, heap_extends, heap_dict_update, stored,
    DICT_TYPE, FALSE, INT_TYPE, LIST_TYPE, NONE, OBJECT, STR_TYPE, TRUE, TYPE_TYPE, BOOL_TYPE, TUPLE_TYPE,
    BASE_EXCEPTION, EXCEPTION, ASSERTION_ERROR, ATTRIBUTE_ERROR, NAME_ERROR, RUNTIME_ERROR,
    NOT_IMPLEMENTED_ERROR, TYPE_ERROR, VALUE_ERROR, CORE_LEN,
};
use crate::render::{display, render, DISPLAY_DEPTH};
use crate::vm::{
    VirtualMachine, PyFuncArgs, Outcome, Request, args_within, raises, returns_value, attr_lookup, namespace_of,
    attribute_error_message, no_attributes_message, class_name_at, bindings_at,
};

verus! {

/// What every builtin keeps: the interpreter stays in order, in the same
/// scope, no object is lost, and the outcome refers to stored objects.
pub open spec fn kept(before: VirtualMachine, after: VirtualMachine, out: Outcome) -> bool {
    &&& after.wf()
    &&& after.current == before.current
    &&& heap_extends(before.heap(), after.heap())
    &&& out.within(after.heap().len() as int)
}

/// The call returned a new object under the next handle and changed nothing
/// else.
pub open spec fn returns_new(before: Heap, after: Heap, out: Outcome) -> bool {
    &&& out == Outcome::Return(before.len() as usize)
    &&& after.len() == before.len() + 1
    &&& forall|i: int| 0 <= i < before.len() ==> #[trigger] after[i] == before[i]
}

/// The call returned a new string with the text `text`.
pub open spec fn returns_new_str(before: Heap, after: Heap, out: Outcome, text: Seq<char>) -> bool {
    &&& returns_new(before, after, out)
    &&& after[before.len() as int].typ == Some(STR_TYPE)
    &&& after[before.len() as int].kind matches PyObjectKind::String { value }
    &&& value@ == text
}

/// The call returned a new integer with the value `value`.
pub open spec fn returns_new_int(before: Heap, after: Heap, out: Outcome, value: int) -> bool {
    &&& returns_new(before, after, out)
    &&& after[before.len() as int].typ == Some(INT_TYPE)
    &&& after[before.len() as int].kind matches PyObjectKind::Integer { value: v }
    &&& v == value
}

/// The call returned a new dictionary with the bindings `b`.
pub open spec fn returns_new_dict(before: Heap, after: Heap, out: Outcome, b: Bindings) -> bool {
    &&& returns_new(before, after, out)
    &&& after[before.len() as int].typ == Some(DICT_TYPE)
    &&& after[before.len() as int].kind is Dict
    &&& after[before.len() as int].bindings() == b
}

/// Whether a value counts as true: `False`, `None`, zero and the empty
/// string, tuple, list and dictionary do not; everything else does.
pub open spec fn truthy(heap: Heap, id: int) -> bool {
    match heap[id].kind {
        PyObjectKind::NoneValue => false,
        PyObjectKind::Boolean { value } => value,
        PyObjectKind::Integer { value } => value != 0,
        PyObjectKind::String { value } => value@.len() > 0,
        PyObjectKind::Tuple { elements } => elements@.len() > 0,
        PyObjectKind::List { elements } => elements@.len() > 0,
        PyObjectKind::Dict { elements } => elements@.len() > 0,
        _ => true,
    }
}

/// Whether the value under `id` counts as true.
pub fn boolval(ctx: &PyContext, id: usize) -> (yes: bool)
    requires
        id < ctx.heap().len(),
    ensures
        yes == truthy(ctx.heap(), id as int),
{
    match &ctx.objects[id].kind {
        PyObjectKind::NoneValue => false,
        PyObjectKind::Boolean { value } => *value,
        PyObjectKind::Integer { value } => *value != 0,
        PyObjectKind::String { value } => !value.as_str().is_empty(),
        PyObjectKind::Tuple { elements } => elements.len() > 0,
        PyObjectKind::List { elements } => elements.len() > 0,
        PyObjectKind::Dict { elements } => elements.len() > 0,
        _ => true,
    }
}

/// Stores a `TypeError` with the given message and raises it.
fn type_error(vm: &mut VirtualMachine, message: &str) -> (out: Outcome)
    requires
        old(vm).wf(),
    ensures
        kept(*old(vm), *final(vm), out),
        raises(old(vm).heap(), final(vm).heap(), out, ExceptionKind::TypeError, message@),
{
    Outcome::Raise(vm.new_type_error(String::from_str(message)))
}

/// Returns the number `n` as a new integer; a number beyond the integers
/// raises a `ValueError`.
fn int_from_usize(vm: &mut VirtualMachine, n: usize) -> (out: Outcome)
    requires
        old(vm).wf(),
    ensures
        kept(*old(vm), *final(vm), out),
        usize_post(old(vm).heap(), final(vm).heap(), out, n),
{
    let wide: u64 = n as u64;
    if wide <= 0x7fff_ffff_ffff_ffff_u64 {
        Outcome::Return(vm.ctx.new_int(wide as i64))
    } else {
        Outcome::Raise(vm.new_error(ExceptionKind::ValueError, String::from_str("number does not fit in an integer")))
    }
}

/// The number `n` came back as a new integer, or, where it is beyond the
/// integers, a `ValueError` was raised.
pub open spec fn usize_post(before: Heap, after: Heap, out: Outcome, n: usize) -> bool {
    if n <= i64::MAX {
        returns_new_int(before, after, out, n as int)
    } else {
        raises(before, after, out, ExceptionKind::ValueError, "number does not fit in an integer"@)
    }
}

/// `all`: `True` if every argument counts as true, else `False`.
pub open spec fn all_post(before: Heap, args: Seq<usize>, after: Heap, out: Outcome) -> bool {
    returns_value(
        before,
        after,
        out,
        if forall|k: int| 0 <= k < args.len() ==> truthy(before, #[trigger] args[k] as int) {
            TRUE
        } else {
            FALSE
        },
    )
}

/// `any`: `True` if some argument counts as true, else `False`.
pub open spec fn any_post(before: Heap, args: Seq<usize>, after: Heap, out: Outcome) -> bool {
    returns_value(
        before,
        after,
        out,
        if exists|k: int| 0 <= k < args.len() && truthy(before, #[trigger] args[k] as int) {
            TRUE
        } else {
            FALSE
        },
    )
}

pub fn builtin_all(vm: &mut VirtualMachine, args: PyFuncArgs) -> (out: Outcome)
    requires
        old(vm).wf(),
        args_within(args.args@, old(vm).heap().len() as int),
    ensures
        kept(*old(vm), *final(vm), out),
        all_post(old(vm).heap(), args.args@, final(vm).heap(), out),
{
    let mut k: usize = 0;
    while k < args.args.len()
        invariant
            k <= args.args.len(),
            vm.wf(),
            *vm == *old(vm),
            args_within(args.args@, vm.heap().len() as int),
            forall|j: int| 0 <= j < k ==> truthy(vm.heap(), #[trigger] args.args@[j] as int),
        decreases args.args.len() - k,
    {
        if !boolval(&vm.ctx, args.args[k]) {
            return Outcome::Return(vm.ctx.new_bool(false));
        }
        k += 1;
    }
    Outcome::Return(vm.ctx.new_bool(true))
}

pub fn builtin_any(vm: &mut VirtualMachine, args: PyFuncArgs) -> (out: Outcome)
    requires
        old(vm).wf(),
        args_within(args.args@, old(vm).heap().len() as int),
    ensures
        kept(*old(vm), *final(vm), out),
        any_post(old(vm).heap(), args.args@, final(vm).heap(), out),
{
    let mut k: usize = 0;
    while k < args.args.len()
        invariant
            k <= args.args.len(),
            vm.wf(),
            *vm == *old(vm),
            args_within(args.args@, vm.heap().len() as int),
            forall|j: int| 0 <= j < k ==> !truthy(vm.heap(), #[trigger] args.args@[j] as int),
        decreases args.args.len() - k,
    {
        if boolval(&vm.ctx, args.args[k]) {
            return Outcome::Return(vm.ctx.new_bool(true));
        }
        k += 1;
    }
    Outcome::Return(vm.ctx.new_bool(false))
}

/// Whether `code_point` is a Unicode scalar value.
pub open spec fn is_scalar_value(code_point: u32) -> bool {
    code_point < 0xD800 || (0xE000 <= code_point && code_point <= 0x10FFFF)
}

/// `char::from_u32` of std: the character with the given code point, where
/// the code point is a Unicode scalar value, and nothing where it is a
/// surrogate or lies beyond the last code point.
#[verifier::external_body]
fn char_from_u32(code_point: u32) -> (c: Option<char>)
    ensures
        c is Some <==> is_scalar_value(code_point),
        c matches Some(ch) ==> ch as u32 == code_point,
{
    char::from_u32(code_point)
}

/// `char::to_string` of std: the string that holds the one character `c`.
#[verifier::external_body]
fn char_to_string(c: char) -> (s: String)
    ensures
        s@ == seq![c],
{
    c.to_string()
}

/// The text that `chr` gives for an integer: the character whose code point
/// is the integer's low 32 bits, or an underscore where that is no Unicode
/// scalar value.
pub open spec fn chr_text(value: i64, text: Seq<char>) -> bool {
    let code_point = (value as int % 0x1_0000_0000) as u32;
    if is_scalar_value(code_point) {
        text.len() == 1 && text[0] as u32 == code_point
    } else {
        text == "_"@
    }
}

/// `chr`: takes one integer and returns a new string, see [`chr_text`].
pub open spec fn chr_post(before: Heap, args: Seq<usize>, after: Heap, out: Outcome) -> bool {
    if args.len() != 1 {
        raises(before, after, out, ExceptionKind::TypeError, "Expected 1 arguments"@)
    } else {
        match before[args[0] as int].kind {
            PyObjectKind::Integer { value } => exists|text: Seq<char>|
                chr_text(value, text) && #[trigger] returns_new_str(before, after, out, text),
            _ => raises(before, after, out, ExceptionKind::TypeError, "an integer is required"@),
        }
    }
}

pub fn builtin_chr(vm: &mut VirtualMachine, args: PyFuncArgs) -> (out: Outcome)
    requires
        old(vm).wf(),
        args_within(args.args@, old(vm).heap().len() as int),
    ensures
        kept(*old(vm), *final(vm), out),
        chr_post(old(vm).heap(), args.args@, final(vm).heap(), out),
{
    if args.args.len() != 1 {
        return type_error(vm, "Expected 1 arguments");
    }
    let code_point: Option<u32> = match &vm.ctx.objects[args.args[0]].kind {
        PyObjectKind::Integer { value } => Some(low_bits(*value)),
        _ => None,
    };
    match code_point {
        Some(cp) => {
            let txt = match char_from_u32(cp) {
                Some(c) => char_to_string(c),
                None => String::from_str("_"),
            };
            let ghost text = txt@;
            let id = vm.ctx.new_str(txt);
            let out = Outcome::Return(id);
            assert(returns_new_str(old(vm).heap(), vm.heap(), out, text));
            out
        },
        None => type_error(vm, "an integer is required"),
    }
}

/// The low 32 bits of `value`.
fn low_bits(value: i64) -> (bits: u32)
    ensures
        bits == (value as int % 0x1_0000_0000) as u32,
{
    let bits = #[verifier::truncate] (value as u32);
    assert(bits == (value as int % 0x1_0000_0000) as u32) by (bit_vector)
        requires
            bits == value as u32,
    ;
    bits
}

} // verus!

verus! {

/// `compile`: takes at least one argument and asks the driver to compile the
/// display form of the first.
pub open spec fn compile_post(before: Heap, args: Seq<usize>, after: Heap, out: Outcome) -> bool {
    if args.len() < 1 {
        raises(before, after, out, ExceptionKind::TypeError, "Expected at least 1 arguments"@)
    } else {
        &&& after == before
        &&& out matches Outcome::Defer { request: Request::Compile { source }, then }
        &&& then is None
        &&& source@ == display(before, args[0] as int, DISPLAY_DEPTH as nat)
    }
}

pub fn builtin_compile(vm: &mut VirtualMachine, args: PyFuncArgs) -> (out: Outcome)
    requires
        old(vm).wf(),
        args_within(args.args@, old(vm).heap().len() as int),
    ensures
        kept(*old(vm), *final(vm), out),
        compile_post(old(vm).heap(), args.args@, final(vm).heap(), out),
{
    if args.args.len() < 1 {
        return type_error(vm, "Expected at least 1 arguments");
    }
    let source = render(&vm.ctx, args.args[0]);
    Outcome::Defer { request: Request::Compile { source }, then: None }
}

/// Ends a call that asked for a compilation: the code object that the
/// compiler produced is the value; its complaint becomes a `TypeError` with
/// that text.
pub fn compile_result(vm: &mut VirtualMachine, compiled: Result<usize, String>) -> (out: Outcome)
    requires
        old(vm).wf(),
        compiled matches Ok(code) ==> code < old(vm).heap().len(),
    ensures
        kept(*old(vm), *final(vm), out),
        match compiled {
            Ok(code) => returns_value(old(vm).heap(), final(vm).heap(), out, code),
            Err(message) => raises(old(vm).heap(), final(vm).heap(), out, ExceptionKind::TypeError, message@),
        },
{
    match compiled {
        Ok(code) => Outcome::Return(code),
        Err(message) => Outcome::Raise(vm.new_type_error(message)),
    }
}

/// The namespace of the current scope.
pub open spec fn current_locals(heap: Heap, current: usize) -> int {
    match heap[current as int].kind {
        PyObjectKind::Scope { locals, .. } => locals as int,
        _ => 0,
    }
}

/// A snapshot of the current local names: a new dictionary with the bindings
/// that the namespace of the current scope has now. Later changes of that
/// namespace do not show in it.
pub fn get_locals(vm: &mut VirtualMachine) -> (d: usize)
    requires
        old(vm).wf(),
    ensures
        kept(*old(vm), *final(vm), Outcome::Return(d)),
        returns_new_dict(
            old(vm).heap(),
            final(vm).heap(),
            Outcome::Return(d),
            bindings_at(old(vm).heap(), current_locals(old(vm).heap(), old(vm).current)),
        ),
{
    let locals = vm.get_locals();
    assert(vm.heap()[locals as int].ok(locals as int, vm.heap().len() as int));
    let elements: Vec<Entry> = match &vm.ctx.objects[locals].kind {
        PyObjectKind::Dict { elements } => entries_clone(elements),
        _ => Vec::new(),
    };
    assert(bindings_of(elements@) =~= bindings_at(vm.heap(), locals as int));
    vm.ctx.new_object(PyObject { kind: PyObjectKind::Dict { elements }, typ: Some(DICT_TYPE) })
}

/// The names of the current scope: a snapshot as [`get_locals`] takes it.
pub fn dir_locals(vm: &mut VirtualMachine) -> (d: usize)
    requires
        old(vm).wf(),
    ensures
        kept(*old(vm), *final(vm), Outcome::Return(d)),
        returns_new_dict(
            old(vm).heap(),
            final(vm).heap(),
            Outcome::Return(d),
            bindings_at(old(vm).heap(), current_locals(old(vm).heap(), old(vm).current)),
        ),
{
    get_locals(vm)
}

/// The names of an object: a new, empty dictionary, whatever the object.
pub fn dir_object(vm: &mut VirtualMachine, _obj: usize) -> (d: usize)
    requires
        old(vm).wf(),
    ensures
        kept(*old(vm), *final(vm), Outcome::Return(d)),
        returns_new_dict(old(vm).heap(), final(vm).heap(), Outcome::Return(d), Seq::empty()),
{
    vm.ctx.new_dict()
}

/// `dir`: without arguments a snapshot of the current local names, else a new
/// empty dictionary.
pub open spec fn dir_post(before: Heap, current: usize, args: Seq<usize>, after: Heap, out: Outcome) -> bool {
    returns_new_dict(
        before,
        after,
        out,
        if args.len() == 0 {
            bindings_at(before, current_locals(before, current))
        } else {
            Seq::empty()
        },
    )
}

pub fn builtin_dir(vm: &mut VirtualMachine, args: PyFuncArgs) -> (out: Outcome)
    requires
        old(vm).wf(),
        args_within(args.args@, old(vm).heap().len() as int),
    ensures
        kept(*old(vm), *final(vm), out),
        dir_post(old(vm).heap(), old(vm).current, args.args@, final(vm).heap(), out),
{
    if args.args.len() == 0 {
        Outcome::Return(dir_locals(vm))
    } else {
        let obj = args.args[0];
        Outcome::Return(dir_object(vm, obj))
    }
}

/// `eval`: takes a code object, globals and locals, stores a new outermost
/// scope over the locals and asks the driver to run the code in it.
pub open spec fn eval_post(before: Heap, args: Seq<usize>, after: Heap, out: Outcome) -> bool {
    if args.len() != 3 {
        raises(before, after, out, ExceptionKind::TypeError, "Expected 3 arguments"@)
    } else {
        &&& stored(
            before,
            after,
            before.len() as usize,
            PyObject { kind: PyObjectKind::Scope { locals: args[2], parent: None }, typ: Some(TYPE_TYPE) },
        )
        &&& out == (Outcome::Defer {
            request: Request::Run { code: args[0], scope: before.len() as usize },
            then: None,
        })
    }
}

pub fn builtin_eval(vm: &mut VirtualMachine, args: PyFuncArgs) -> (out: Outcome)
    requires
        old(vm).wf(),
        args_within(args.args@, old(vm).heap().len() as int),
    ensures
        kept(*old(vm), *final(vm), out),
        eval_post(old(vm).heap(), args.args@, final(vm).heap(), out),
{
    if args.args.len() != 3 {
        return type_error(vm, "Expected 3 arguments");
    }
    let args = args.args;
    let code_obj = args[0];
    let locals = args[2];
    let scope = vm.ctx.new_scope(locals, None);
    Outcome::Defer { request: Request::Run { code: code_obj, scope }, then: None }
}

/// `getattr`: takes an object and a name, which must be a string, and
/// resolves the attribute.
pub open spec fn getattr_post(before: Heap, args: Seq<usize>, after: Heap, out: Outcome) -> bool {
    if args.len() != 2 {
        raises(before, after, out, ExceptionKind::TypeError, "Expected 2 arguments"@)
    } else {
        match before[args[1] as int].kind {
            PyObjectKind::String { value } => match attr_lookup(before, args[0] as int, value@) {
                Some(v) => returns_value(before, after, out, v),
                None => raises(
                    before,
                    after,
                    out,
                    ExceptionKind::AttributeError,
                    attribute_error_message(class_name_at(before, args[0] as int), value@),
                ),
            },
            _ => raises(before, after, out, ExceptionKind::TypeError, "Attr can only be str for now"@),
        }
    }
}

/// The text of the string under `id`, if it is one.
fn string_value(ctx: &PyContext, id: usize) -> (text: Option<String>)
    requires
        id < ctx.heap().len(),
    ensures
        match ctx.heap()[id as int].kind {
            PyObjectKind::String { value } => text == Some(value),
            _ => text is None,
        },
{
    match &ctx.objects[id].kind {
        PyObjectKind::String { value } => Some(value.clone()),
        _ => None,
    }
}

pub fn builtin_getattr(vm: &mut VirtualMachine, args: PyFuncArgs) -> (out: Outcome)
    requires
        old(vm).wf(),
        args_within(args.args@, old(vm).heap().len() as int),
    ensures
        kept(*old(vm), *final(vm), out),
        getattr_post(old(vm).heap(), args.args@, final(vm).heap(), out),
{
    if args.args.len() != 2 {
        return type_error(vm, "Expected 2 arguments");
    }
    let args = args.args;
    let obj = args[0];
    match string_value(&vm.ctx, args[1]) {
        Some(value) => match vm.get_attribute(obj, &value) {
            Ok(v) => Outcome::Return(v),
            Err(e) => Outcome::Raise(e),
        },
        None => type_error(vm, "Attr can only be str for now"),
    }
}

/// `hasattr`: takes an object and a name, which must be a string, and says
/// whether the attribute resolves.
pub open spec fn hasattr_post(before: Heap, args: Seq<usize>, after: Heap, out: Outcome) -> bool {
    if args.len() != 2 {
        raises(before, after, out, ExceptionKind::TypeError, "Expected 2 arguments"@)
    } else {
        match before[args[1] as int].kind {
            PyObjectKind::String { value } => returns_value(
                before,
                after,
                out,
                if attr_lookup(before, args[0] as int, value@) is Some {
                    TRUE
                } else {
                    FALSE
                },
            ),
            _ => raises(before, after, out, ExceptionKind::TypeError, "Attr can only be str for now"@),
        }
    }
}

pub fn builtin_hasattr(vm: &mut VirtualMachine, args: PyFuncArgs) -> (out: Outcome)
    requires
        old(vm).wf(),
        args_within(args.args@, old(vm).heap().len() as int),
    ensures
        kept(*old(vm), *final(vm), out),
        hasattr_post(old(vm).heap(), args.args@, final(vm).heap(), out),
{
    if args.args.len() != 2 {
        return type_error(vm, "Expected 2 arguments");
    }
    let args = args.args;
    let obj = args[0];
    match string_value(&vm.ctx, args[1]) {
        Some(value) => {
            let has_attr = vm.has_attribute(obj, &value);
            Outcome::Return(vm.ctx.new_bool(has_attr))
        },
        None => type_error(vm, "Attr can only be str for now"),
    }
}

/// `id`: takes one object and returns its identity, the handle, as a new
/// integer.
pub open spec fn id_post(before: Heap, args: Seq<usize>, after: Heap, out: Outcome) -> bool {
    if args.len() != 1 {
        raises(before, after, out, ExceptionKind::TypeError, "Expected 1 arguments"@)
    } else {
        usize_post(before, after, out, args[0])
    }
}

/// The value of the integer that a call returned.
pub open spec fn returned_int(after: Heap, out: Outcome) -> int {
    match out {
        Outcome::Return(v) => match after[v as int].kind {
            PyObjectKind::Integer { value } => value as int,
            _ => 0,
        },
        _ => 0,
    }
}

/// `id` of a value whose handle fits in an integer returns the handle,
/// whatever the store, which is that of some vector, holds: two calls on one value return integers of the
/// same value, and calls on two values that are not the same handle return
/// integers of different values.
pub proof fn lemma_id_is_the_handle(
    a: usize,
    before_a: Heap,
    after_a: Heap,
    out_a: Outcome,
    b: usize,
    before_b: Heap,
    after_b: Heap,
    out_b: Outcome,
)
    requires
        before_a.len() <= usize::MAX,
        before_b.len() <= usize::MAX,
        a <= i64::MAX,
        b <= i64::MAX,
        id_post(before_a, seq![a], after_a, out_a),
        id_post(before_b, seq![b], after_b, out_b),
    ensures
        out_a is Return,
        out_b is Return,
        returned_int(after_a, out_a) == a,
        returned_int(after_b, out_b) == b,
        a == b <==> returned_int(after_a, out_a) == returned_int(after_b, out_b),
{
    assert(seq![a][0] == a && seq![a].len() == 1);
    assert(seq![b][0] == b && seq![b].len() == 1);
    assert(usize_post(before_a, after_a, out_a, a));
    assert(usize_post(before_b, after_b, out_b, b));
    assert(returns_new_int(before_a, after_a, out_a, a as int));
    assert(returns_new_int(before_b, after_b, out_b, b as int));
}

pub fn builtin_id(vm: &mut VirtualMachine, args: PyFuncArgs) -> (out: Outcome)
    requires
        old(vm).wf(),
        args_within(args.args@, old(vm).heap().len() as int),
    ensures
        kept(*old(vm), *final(vm), out),
        id_post(old(vm).heap(), args.args@, final(vm).heap(), out),
{
    if args.args.len() != 1 {
        return type_error(vm, "Expected 1 arguments");
    }
    let token = vm.ctx.get_id(args.args[0]);
    int_from_usize(vm, token)
}

/// `isinstance`: takes an object and a class and says whether the type of
/// the object is the class or has it among its ancestors.
pub open spec fn isinstance_post(before: Heap, args: Seq<usize>, after: Heap, out: Outcome) -> bool {
    if args.len() != 2 {
        raises(before, after, out, ExceptionKind::TypeError, "Expected 2 arguments"@)
    } else {
        returns_value(
            before,
            after,
            out,
            if is_instance(before, args[0] as int, args[1] as int) {
                TRUE
            } else {
                FALSE
            },
        )
    }
}

pub fn builtin_isinstance(vm: &mut VirtualMachine, args: PyFuncArgs) -> (out: Outcome)
    requires
        old(vm).wf(),
        args_within(args.args@, old(vm).heap().len() as int),
    ensures
        kept(*old(vm), *final(vm), out),
        isinstance_post(old(vm).heap(), args.args@, final(vm).heap(), out),
{
    if args.args.len() != 2 {
        return type_error(vm, "Expected 2 arguments");
    }
    let obj = args.args[0];
    let typ = args.args[1];
    let isinstance = isinstance(&vm.ctx, obj, typ);
    Outcome::Return(vm.ctx.new_bool(isinstance))
}

/// `locals`: takes nothing and returns a snapshot of the current local
/// names: a new dictionary with the bindings that the namespace of the
/// current scope has at the call.
pub open spec fn locals_post(before: Heap, current: usize, args: Seq<usize>, after: Heap, out: Outcome) -> bool {
    if args.len() != 0 {
        raises(before, after, out, ExceptionKind::TypeError, "Expected 0 arguments"@)
    } else {
        returns_new_dict(before, after, out, bindings_at(before, current_locals(before, current)))
    }
}

pub fn builtin_locals(vm: &mut VirtualMachine, args: PyFuncArgs) -> (out: Outcome)
    requires
        old(vm).wf(),
        args_within(args.args@, old(vm).heap().len() as int),
    ensures
        kept(*old(vm), *final(vm), out),
        locals_post(old(vm).heap(), old(vm).current, args.args@, final(vm).heap(), out),
{
    if args.args.len() != 0 {
        return type_error(vm, "Expected 0 arguments");
    }
    Outcome::Return(get_locals(vm))
}

/// What `print` writes for the arguments from position `k` on: the display
/// form of each, followed by a space, and a line feed at the end.
pub open spec fn print_text(heap: Heap, args: Seq<usize>, k: int) -> Seq<char>
    decreases args.len() - k,
{
    if 0 <= k < args.len() {
        display(heap, args[k] as int, DISPLAY_DEPTH as nat) + " "@ + print_text(heap, args, k + 1)
    } else {
        "\n"@
    }
}

/// `print`: asks the driver to write the line of its arguments; the value of
/// the call is then `None`.
pub open spec fn print_post(before: Heap, args: Seq<usize>, after: Heap, out: Outcome) -> bool {
    &&& after == before
    &&& out matches Outcome::Defer { request: Request::Print { text }, then }
    &&& then == Some(NONE)
    &&& text@ == print_text(before, args, 0)
}

pub fn builtin_print(vm: &mut VirtualMachine, args: PyFuncArgs) -> (out: Outcome)
    requires
        old(vm).wf(),
        args_within(args.args@, old(vm).heap().len() as int),
    ensures
        kept(*old(vm), *final(vm), out),
        print_post(old(vm).heap(), args.args@, final(vm).heap(), out),
{
    let ghost heap = vm.heap();
    let mut text = String::new();
    let mut k: usize = 0;
    while k < args.args.len()
        invariant
            k <= args.args.len(),
            vm.wf(),
            *vm == *old(vm),
            heap == vm.heap(),
            args_within(args.args@, vm.heap().len() as int),
            text@ + print_text(heap, args.args@, k as int) == print_text(heap, args.args@, 0),
        decreases args.args.len() - k,
    {
        let ghost before = text@;
        let a = render(&vm.ctx, args.args[k]);
        text.append(a.as_str());
        text.append(" ");
        k += 1;
        assert(text@ + print_text(heap, args.args@, k as int) =~= before + print_text(heap, args.args@, k - 1));
    }
    let ghost before = text@;
    text.append("\n");
    assert(text@ =~= before + print_text(heap, args.args@, k as int));
    Outcome::Defer { request: Request::Print { text }, then: Some(vm.ctx.new_none()) }
}

/// `setattr`: takes an object, a name, which must be a string, and a value,
/// binds the name in the object's own namespace and returns `None`.
pub open spec fn setattr_post(before: Heap, args: Seq<usize>, after: Heap, out: Outcome) -> bool {
    if args.len() != 3 {
        raises(before, after, out, ExceptionKind::TypeError, "Expected 3 arguments"@)
    } else {
        match before[args[1] as int].kind {
            PyObjectKind::String { value } => {
                if namespace_of(before, args[0] as int) matches Some(d) && before[d as int].kind is Dict {
                    &&& out == Outcome::Return(NONE)
                    &&& heap_dict_update(
                        before,
                        after,
                        namespace_of(before, args[0] as int)->0 as int,
                        ns_set(bindings_at(before, namespace_of(before, args[0] as int)->0 as int), value@, args[2]),
                    )
                    &&& attr_lookup(after, args[0] as int, value@) == Some(args[2])
                } else {
                    raises(
                        before,
                        after,
                        out,
                        ExceptionKind::TypeError,
                        no_attributes_message(class_name_at(before, args[0] as int)),
                    )
                }
            },
            _ => raises(before, after, out, ExceptionKind::TypeError, "Attr can only be str for now"@),
        }
    }
}

pub fn builtin_setattr(vm: &mut VirtualMachine, args: PyFuncArgs) -> (out: Outcome)
    requires
        old(vm).wf(),
        args_within(args.args@, old(vm).heap().len() as int),
    ensures
        kept(*old(vm), *final(vm), out),
        setattr_post(old(vm).heap(), args.args@, final(vm).heap(), out),
{
    if args.args.len() != 3 {
        return type_error(vm, "Expected 3 arguments");
    }
    let args = args.args;
    let obj = args[0];
    let value = args[2];
    match string_value(&vm.ctx, args[1]) {
        Some(name) => match vm.set_attribute(obj, name, value) {
            Ok(_) => Outcome::Return(vm.ctx.new_none()),
            Err(e) => Outcome::Raise(e),
        },
        None => type_error(vm, "Attr can only be str for now"),
    }
}

} // verus!

verus! {

/// `range`: takes one integer `n` and returns a new list of the new integers
/// `0` to `n - 1`, which are stored in that order, the list after them.
pub open spec fn range_post(before: Heap, args: Seq<usize>, after: Heap, out: Outcome) -> bool {
    if args.len() != 1 {
        raises(before, after, out, ExceptionKind::TypeError, "Expected 1 arguments"@)
    } else {
        match before[args[0] as int].kind {
            PyObjectKind::Integer { value } => {
                let n: int = if value > 0 {
                    value as int
                } else {
                    0
                };
                let list = before.len() + n;
                &&& out == Outcome::Return(list as usize)
                &&& after.len() == list + 1
                &&& forall|i: int| 0 <= i < before.len() ==> #[trigger] after[i] == before[i]
                &&& forall|i: int|
                    before.len() <= i < list ==> #[trigger] after[i] == (PyObject {
                        kind: PyObjectKind::Integer { value: (i - before.len()) as i64 },
                        typ: Some(INT_TYPE),
                    })
                &&& after[list].typ == Some(LIST_TYPE)
                &&& after[list].kind matches PyObjectKind::List { elements }
                &&& elements@ =~= Seq::new(n as nat, |k: int| (before.len() + k) as usize)
            },
            _ => raises(before, after, out, ExceptionKind::TypeError, "an integer is required"@),
        }
    }
}

/// The integer under `id`, if it is one.
fn integer_value(ctx: &PyContext, id: usize) -> (value: Option<i64>)
    requires
        id < ctx.heap().len(),
    ensures
        match ctx.heap()[id as int].kind {
            PyObjectKind::Integer { value: v } => value == Some(v),
            _ => value is None,
        },
{
    match &ctx.objects[id].kind {
        PyObjectKind::Integer { value } => Some(*value),
        _ => None,
    }
}

pub fn builtin_range(vm: &mut VirtualMachine, args: PyFuncArgs) -> (out: Outcome)
    requires
        old(vm).wf(),
        args_within(args.args@, old(vm).heap().len() as int),
    ensures
        kept(*old(vm), *final(vm), out),
        range_post(old(vm).heap(), args.args@, final(vm).heap(), out),
{
    if args.args.len() != 1 {
        return type_error(vm, "Expected 1 arguments");
    }
    match integer_value(&vm.ctx, args.args[0]) {
        Some(value) => {
            let ghost before = vm.heap();
            let mut range_elements: Vec<usize> = Vec::new();
            let mut num: i64 = 0;
            while num < value
                invariant
                    0 <= num,
                    value > 0 ==> num <= value,
                    value <= 0 ==> num == 0,
                    vm.wf(),
                    vm.current == old(vm).current,
                    before == old(vm).heap(),
                    heap_extends(before, vm.heap()),
                    vm.heap().len() == before.len() + num,
                    forall|i: int| 0 <= i < before.len() ==> #[trigger] vm.heap()[i] == before[i],
                    forall|i: int|
                        before.len() <= i < before.len() + num ==> #[trigger] vm.heap()[i] == (PyObject {
                            kind: PyObjectKind::Integer { value: (i - before.len()) as i64 },
                            typ: Some(INT_TYPE),
                        }),
                    range_elements@.len() == num,
                    forall|k: int| 0 <= k < num ==> #[trigger] range_elements@[k] == before.len() + k,
                decreases value - num,
            {
                let ghost filled = vm.heap();
                let id = vm.ctx.new_int(num);
                proof {
                    lemma_extends_trans(before, filled, vm.heap());
                }
                range_elements.push(id);
                num += 1;
            }
            let ghost elements = range_elements@;
            let ghost filled = vm.heap();
            let list = vm.ctx.new_list(range_elements);
            proof {
                let n: int = if value > 0 { value as int } else { 0 };
                assert(num == n);
                assert(elements =~= Seq::new(n as nat, |k: int| (before.len() + k) as usize));
                assert(forall|i: int| 0 <= i < filled.len() ==> #[trigger] vm.heap()[i] == filled[i]);
            }
            Outcome::Return(list)
        },
        None => type_error(vm, "an integer is required"),
    }
}

/// The names of the parameters of the code object under `code`; none where
/// it is no code object.
pub open spec fn params_of(heap: Heap, code: int) -> Seq<String> {
    match heap[code].kind {
        PyObjectKind::Code { params, .. } => params@,
        _ => Seq::empty(),
    }
}

/// The namespace that binds the first `n` parameters to the first `n`
/// arguments, in order.
pub open spec fn bound_args(params: Seq<String>, args: Seq<usize>, n: nat) -> Bindings
    decreases n,
{
    if n == 0 {
        Seq::empty()
    } else {
        ns_set(bound_args(params, args, (n - 1) as nat), params[n - 1]@, args[n - 1])
    }
}

/// The smaller of two lengths.
pub open spec fn shorter(a: nat, b: nat) -> nat {
    if a <= b {
        a
    } else {
        b
    }
}

/// Binds the parameters of `code` to `args`, position by position, as far as
/// both go.
fn bind_arguments(ctx: &PyContext, code: usize, args: &Vec<usize>) -> (entries: Vec<Entry>)
    requires
        code < ctx.heap().len(),
        args_within(args@, ctx.heap().len() as int),
    ensures
        bindings_of(entries@) == bound_args(
            params_of(ctx.heap(), code as int),
            args@,
            shorter(params_of(ctx.heap(), code as int).len(), args@.len()),
        ),
        ns_distinct(bindings_of(entries@)),
        ns_below(bindings_of(entries@), ctx.heap().len() as int),
{
    let mut entries: Vec<Entry> = Vec::new();
    assert(bindings_of(entries@) =~= Seq::empty());
    match &ctx.objects[code].kind {
        PyObjectKind::Code { params, .. } => {
            let mut k: usize = 0;
            while k < params.len() && k < args.len()
                invariant
                    k <= params.len(),
                    k <= args.len(),
                    params@ == params_of(ctx.heap(), code as int),
                    args_within(args@, ctx.heap().len() as int),
                    bindings_of(entries@) == bound_args(params@, args@, k as nat),
                    ns_distinct(bindings_of(entries@)),
                    ns_below(bindings_of(entries@), ctx.heap().len() as int),
                decreases params.len() - k,
            {
                proof {
                    lemma_ns_set_below(bindings_of(entries@), params@[k as int]@, args@[k as int], ctx.heap().len() as int);
                }
                entries_set(&mut entries, params[k].clone(), args[k]);
                k += 1;
            }
        },
        _ => {},
    }
    entries
}

/// A call of a user-defined function stores a namespace that binds the
/// parameters to the arguments and a scope over it inside the scope that the
/// function was defined in, and asks the driver to run the code there.
pub open spec fn user_call_post(before: Heap, code: usize, scope: usize, args: Seq<usize>, after: Heap, out: Outcome) -> bool {
    let locals = before.len() as int;
    let params = params_of(before, code as int);
    &&& after.len() == before.len() + 2
    &&& forall|i: int| 0 <= i < before.len() ==> #[trigger] after[i] == before[i]
    &&& after[locals].kind is Dict
    &&& after[locals].typ == Some(DICT_TYPE)
    &&& after[locals].bindings() == bound_args(params, args, shorter(params.len(), args.len()))
    &&& after[locals + 1] == (PyObject {
        kind: PyObjectKind::Scope { locals: locals as usize, parent: Some(scope) },
        typ: Some(TYPE_TYPE),
    })
    &&& out == (Outcome::Defer { request: Request::Run { code, scope: (locals + 1) as usize }, then: None })
}

/// The message of the error for an object without a length.
pub open spec fn no_len_message(class_name: Seq<char>) -> Seq<char> {
    "object of type '"@ + class_name + "' has no len()"@
}

/// What a call of a native operation does that calls nothing itself. It
/// holds of no call of `len` or of the class construction, which do.
pub open spec fn plain_post(op: NativeOp, before: Heap, current: usize, args: Seq<usize>, after: Heap, out: Outcome) -> bool {
    match op {
        NativeOp::All => all_post(before, args, after, out),
        NativeOp::Any => any_post(before, args, after, out),
        NativeOp::Chr => chr_post(before, args, after, out),
        NativeOp::Compile => compile_post(before, args, after, out),
        NativeOp::Dir => dir_post(before, current, args, after, out),
        NativeOp::Eval => eval_post(before, args, after, out),
        NativeOp::Getattr => getattr_post(before, args, after, out),
        NativeOp::Hasattr => hasattr_post(before, args, after, out),
        NativeOp::Id => id_post(before, args, after, out),
        NativeOp::Isinstance => isinstance_post(before, args, after, out),
        NativeOp::Locals => locals_post(before, current, args, after, out),
        NativeOp::Print => print_post(before, args, after, out),
        NativeOp::Range => range_post(before, args, after, out),
        NativeOp::Setattr => setattr_post(before, args, after, out),
        NativeOp::Len => false,
        NativeOp::BuildClass => false,
    }
}

/// What a call of `callable` without arguments does. `len` and the class
/// construction then only complain about their arguments.
pub open spec fn bare_call_post(before: Heap, current: usize, callable: usize, after: Heap, out: Outcome) -> bool {
    match before[callable as int].kind {
        PyObjectKind::RustFunction { op } => match op {
            NativeOp::Len => raises(before, after, out, ExceptionKind::TypeError, "Expected 1 arguments"@),
            NativeOp::BuildClass => raises(before, after, out, ExceptionKind::TypeError, "Class name must be a string"@),
            _ => plain_post(op, before, current, Seq::empty(), after, out),
        },
        PyObjectKind::Function { code, scope } => user_call_post(before, code, scope, Seq::empty(), after, out),
        _ => raises(before, after, out, ExceptionKind::TypeError, "object is not callable"@),
    }
}

/// The length that a value has by its kind: a dictionary the number of its
/// bindings, a tuple that of its elements, a string that of its characters.
pub open spec fn own_len(obj: PyObject) -> Option<usize> {
    match obj.kind {
        PyObjectKind::Dict { elements } => Some(elements@.len() as usize),
        PyObjectKind::Tuple { elements } => Some(elements@.len() as usize),
        PyObjectKind::String { value } => Some(value@.len() as usize),
        _ => None,
    }
}

/// The length that the value under `id` has by its kind.
fn own_length(ctx: &PyContext, id: usize) -> (n: Option<usize>)
    requires
        id < ctx.heap().len(),
    ensures
        n == own_len(ctx.heap()[id as int]),
{
    match &ctx.objects[id].kind {
        PyObjectKind::Dict { elements } => Some(elements.len()),
        PyObjectKind::Tuple { elements } => Some(elements.len()),
        PyObjectKind::String { value } => Some(value.as_str().unicode_len()),
        _ => None,
    }
}

/// `len`: takes one object. Where the object has a length by its kind, that
/// is returned as a new integer. For any other object the attribute
/// `__len__` is resolved and called without arguments.
pub open spec fn len_post(before: Heap, current: usize, args: Seq<usize>, after: Heap, out: Outcome) -> bool
{
    if args.len() != 1 {
        raises(before, after, out, ExceptionKind::TypeError, "Expected 1 arguments"@)
    } else {
        match own_len(before[args[0] as int]) {
            Some(n) => usize_post(before, after, out, n),
            None => match attr_lookup(before, args[0] as int, "__len__"@) {
                Some(method) => bare_call_post(before, current, method, after, out),
                None => raises(
                    before,
                    after,
                    out,
                    ExceptionKind::TypeError,
                    no_len_message(class_name_at(before, args[0] as int)),
                ),
            },
        }
    }
}

/// What a call of `callable` with the one argument `arg` does. The class
/// construction then only complains about its arguments.
pub open spec fn body_call_post(before: Heap, current: usize, callable: usize, arg: usize, after: Heap, out: Outcome) -> bool {
    match before[callable as int].kind {
        PyObjectKind::RustFunction { op } => match op {
            NativeOp::Len => len_post(before, current, seq![arg], after, out),
            NativeOp::BuildClass => raises(before, after, out, ExceptionKind::TypeError, "Class name must be a string"@),
            _ => plain_post(op, before, current, seq![arg], after, out),
        },
        PyObjectKind::Function { code, scope } => user_call_post(before, code, scope, seq![arg], after, out),
        _ => raises(before, after, out, ExceptionKind::TypeError, "object is not callable"@),
    }
}

/// The class that `name`, `bases` and `namespace` make: its bases are the
/// given ones and then the root class, its type is `type`.
pub open spec fn is_new_class(obj: PyObject, name: Seq<char>, bases: Seq<usize>, namespace: usize) -> bool {
    &&& obj.typ == Some(TYPE_TYPE)
    &&& obj.kind matches PyObjectKind::Class { name: n, bases: b, dict }
    &&& n@ == name
    &&& b@ == bases.push(OBJECT)
    &&& dict == namespace
}

/// `after` is `populated` with the class that `name`, the bases behind the
/// first two of `args` and `namespace` make, stored under the next handle.
pub open spec fn class_stored(populated: Heap, after: Heap, name: Seq<char>, args: Seq<usize>, namespace: usize) -> bool {
    &&& after.len() == populated.len() + 1
    &&& forall|i: int| 0 <= i < populated.len() ==> #[trigger] after[i] == populated[i]
    &&& args.len() >= 2
    &&& is_new_class(after[populated.len() as int], name, args.subrange(2, args.len() as int), namespace)
}

/// The steps of a class construction: `entered` is the store with the new,
/// empty namespace; `populated` is what the call of the body with that
/// namespace left, and `body` how it ended. Where the body raised, its error
/// is the outcome and no class is stored. Otherwise the class is stored and
/// is the value of the construction; work that the body left for the driver
/// is handed on with it.
pub open spec fn class_steps(
    before: Heap,
    current: usize,
    args: Seq<usize>,
    entered: Heap,
    populated: Heap,
    body: Outcome,
    after: Heap,
    out: Outcome,
) -> bool
{
    let namespace = before.len() as usize;
    let class = populated.len() as usize;
    &&& args.len() >= 2
    &&& returns_new_dict(before, entered, Outcome::Return(namespace), Seq::empty())
    &&& body_call_post(entered, current, args[0], namespace, populated, body)
    &&& before[args[1] as int].kind matches PyObjectKind::String { value: name }
    &&& match body {
        Outcome::Raise(e) => after == populated && out == Outcome::Raise(e),
        Outcome::Return(_) => class_stored(populated, after, name@, args, namespace) && out == Outcome::Return(
            class,
        ),
        Outcome::Defer { request, .. } => class_stored(populated, after, name@, args, namespace) && out == (
        Outcome::Defer { request, then: Some(class) }),
    }
}

/// Class construction: takes the body, the name, which is a string, and the
/// explicit bases; see [`class_steps`].
pub open spec fn build_class_post(before: Heap, current: usize, args: Seq<usize>, after: Heap, out: Outcome) -> bool
{
    exists|entered: Heap, populated: Heap, body: Outcome| #[trigger]
        class_steps(before, current, args, entered, populated, body, after, out)
}

/// What a call of the native operation `op` does.
pub open spec fn native_post(op: NativeOp, before: Heap, current: usize, args: Seq<usize>, after: Heap, out: Outcome) -> bool {
    match op {
        NativeOp::Len => len_post(before, current, args, after, out),
        NativeOp::BuildClass => if args.len() >= 2 && before[args[1] as int].kind is String {
            build_class_post(before, current, args, after, out)
        } else {
            raises(before, after, out, ExceptionKind::TypeError, "Class name must be a string"@)
        },
        _ => plain_post(op, before, current, args, after, out),
    }
}

/// What a call of `callable` with `args` does: a native operation does its
/// own work, a user-defined function gets its scope and is handed to the
/// driver, anything else is not callable.
pub open spec fn invoke_post(before: Heap, current: usize, callable: usize, args: Seq<usize>, after: Heap, out: Outcome) -> bool
{
    match before[callable as int].kind {
        PyObjectKind::RustFunction { op } => native_post(op, before, current, args, after, out),
        PyObjectKind::Function { code, scope } => user_call_post(before, code, scope, args, after, out),
        _ => raises(before, after, out, ExceptionKind::TypeError, "object is not callable"@),
    }
}

} // verus!

verus! {

/// Keeping every object is transitive.
pub proof fn lemma_extends_trans(a: Heap, b: Heap, c: Heap)
    requires
        heap_extends(a, b),
        heap_extends(b, c),
    ensures
        heap_extends(a, c),
{
    assert forall|i: int| 0 <= i < a.len() implies (#[trigger] c[i] == a[i] || (a[i].kind is Dict
        && c[i].kind is Dict && c[i].typ == a[i].typ)) by {
        assert(b[i] == a[i] || (a[i].kind is Dict && b[i].kind is Dict && b[i].typ == a[i].typ));
        assert(c[i] == b[i] || (b[i].kind is Dict && c[i].kind is Dict && c[i].typ == b[i].typ));
    }
}

pub fn builtin_len(vm: &mut VirtualMachine, args: PyFuncArgs) -> (out: Outcome)
    requires
        old(vm).wf(),
        args_within(args.args@, old(vm).heap().len() as int),
    ensures
        kept(*old(vm), *final(vm), out),
        len_post(old(vm).heap(), old(vm).current, args.args@, final(vm).heap(), out),
    decreases args.args@.len(), 0nat,
{
    if args.args.len() != 1 {
        return type_error(vm, "Expected 1 arguments");
    }
    let obj = args.args[0];
    match own_length(&vm.ctx, obj) {
        Some(n) => int_from_usize(vm, n),
        None => {
            let len_method_name = String::from_str("__len__");
            match vm.find_attribute(obj, &len_method_name) {
                Some(value) => vm.invoke(value, PyFuncArgs::default()),
                None => {
                    let mut message = String::from_str("object of type '");
                    let class_name = vm.class_name_of(obj);
                    message.append(class_name.as_str());
                    message.append("' has no len()");
                    Outcome::Raise(vm.new_type_error(message))
                },
            }
        },
    }
}

/// Constructs a class: calls the body with a new, empty namespace, puts the
/// root class behind the explicit bases and stores the class, whose type is
/// `type`. An error that the body raised is handed on instead, and no class
/// is stored. The arguments are the body, the name and the explicit bases.
pub fn builtin_build_class_(vm: &mut VirtualMachine, args: PyFuncArgs) -> (out: Outcome)
    requires
        old(vm).wf(),
        args_within(args.args@, old(vm).heap().len() as int),
        args.args@.len() >= 2,
        old(vm).heap()[args.args@[1] as int].kind is String,
    ensures
        kept(*old(vm), *final(vm), out),
        build_class_post(old(vm).heap(), old(vm).current, args.args@, final(vm).heap(), out),
    decreases args.args@.len(), 1nat,
{
    let ghost given = args.args@;
    let ghost before = vm.heap();
    let mut args = args;
    let function = args.shift();
    let name_arg = args.shift();
    assert(function == given[0] && name_arg == given[1]);
    let name = match string_value(&vm.ctx, name_arg) {
        Some(value) => value,
        None => String::new(),
    };
    let mut bases = args.args;
    assert(bases@ =~= given.subrange(2, given.len() as int));
    bases.push(vm.ctx.get_id(OBJECT));
    assert(bases@ =~= given.subrange(2, given.len() as int).push(OBJECT));
    let metaclass = vm.get_type();
    let namespace = vm.ctx.new_dict();
    let ghost entered = vm.heap();
    let call = PyFuncArgs { args: vec![namespace] };
    assert(call.args@ =~= seq![namespace]);
    let body = vm.invoke(function, call);
    let ghost populated = vm.heap();
    let ghost ended = body;
    let ghost current = old(vm).current;
    proof {
        lemma_extends_trans(before, entered, populated);
    }
    let out = match body {
        Outcome::Raise(e) => Outcome::Raise(e),
        Outcome::Return(_) => {
            let class = crate::objtype::new(&mut vm.ctx, metaclass, name, bases, namespace);
            Outcome::Return(class)
        },
        Outcome::Defer { request, .. } => {
            let class = crate::objtype::new(&mut vm.ctx, metaclass, name, bases, namespace);
            Outcome::Defer { request, then: Some(class) }
        },
    };
    proof {
        lemma_extends_trans(before, populated, vm.heap());
        assert(class_steps(before, current, given, entered, populated, ended, vm.heap(), out));
    }
    out
}

/// Does the work of the native operation `op`.
pub fn native_call(vm: &mut VirtualMachine, op: NativeOp, args: PyFuncArgs) -> (out: Outcome)
    requires
        old(vm).wf(),
        args_within(args.args@, old(vm).heap().len() as int),
    ensures
        kept(*old(vm), *final(vm), out),
        native_post(op, old(vm).heap(), old(vm).current, args.args@, final(vm).heap(), out),
    decreases args.args@.len(), 2nat,
{
    match op {
        NativeOp::All => builtin_all(vm, args),
        NativeOp::Any => builtin_any(vm, args),
        NativeOp::Chr => builtin_chr(vm, args),
        NativeOp::Compile => builtin_compile(vm, args),
        NativeOp::Dir => builtin_dir(vm, args),
        NativeOp::Eval => builtin_eval(vm, args),
        NativeOp::Getattr => builtin_getattr(vm, args),
        NativeOp::Hasattr => builtin_hasattr(vm, args),
        NativeOp::Id => builtin_id(vm, args),
        NativeOp::Isinstance => builtin_isinstance(vm, args),
        NativeOp::Len => builtin_len(vm, args),
        NativeOp::Locals => builtin_locals(vm, args),
        NativeOp::Print => builtin_print(vm, args),
        NativeOp::Range => builtin_range(vm, args),
        NativeOp::Setattr => builtin_setattr(vm, args),
        NativeOp::BuildClass => {
            let named = args.args.len() >= 2 && string_value(&vm.ctx, args.args[1]).is_some();
            if named {
                builtin_build_class_(vm, args)
            } else {
                type_error(vm, "Class name must be a string")
            }
        },
    }
}

impl VirtualMachine {
    /// Calls `callable` with the positional arguments `args`. A native
    /// operation is carried out and its outcome handed on unchanged. For a
    /// user-defined function a new scope is stored, inside the scope that the
    /// function was defined in, with the parameters bound to the arguments,
    /// and the driver is asked to run the code there. The number of arguments
    /// is not checked here.
    pub fn invoke(&mut self, callable: usize, args: PyFuncArgs) -> (out: Outcome)
        requires
            old(self).wf(),
            callable < old(self).heap().len(),
            args_within(args.args@, old(self).heap().len() as int),
        ensures
            kept(*old(self), *final(self), out),
            invoke_post(old(self).heap(), old(self).current, callable, args.args@, final(self).heap(), out),
        decreases args.args@.len(), 3nat,
    {
        assert(self.heap()[callable as int].ok(callable as int, self.heap().len() as int));
        let native: Option<NativeOp> = match &self.ctx.objects[callable].kind {
            PyObjectKind::RustFunction { op } => Some(*op),
            _ => None,
        };
        let user: Option<(usize, usize)> = match &self.ctx.objects[callable].kind {
            PyObjectKind::Function { code, scope } => Some((*code, *scope)),
            _ => None,
        };
        match native {
            Some(op) => native_call(self, op, args),
            None => match user {
                Some((code, scope)) => {
                    let elements = bind_arguments(&self.ctx, code, &args.args);
                    assert forall|k: int| 0 <= k < elements@.len() implies (#[trigger] elements@[k]).value
                        < self.heap().len() by {
                        assert(bindings_of(elements@)[k].1 == elements@[k].value);
                    }
                    let locals = self.ctx.new_object(
                        PyObject { kind: PyObjectKind::Dict { elements }, typ: Some(DICT_TYPE) },
                    );
                    let ghost entered = self.heap();
                    let inner = self.ctx.new_scope(locals, Some(scope));
                    proof {
                        lemma_extends_trans(old(self).heap(), entered, self.heap());
                    }
                    Outcome::Defer { request: Request::Run { code, scope: inner }, then: None }
                },
                None => type_error(self, "object is not callable"),
            },
        }
    }
}

} // verus!

verus! {

/// The native operations that the builtins module offers, in the order in
/// which their callables are stored.
pub open spec fn builtin_ops() -> Seq<NativeOp> {
    seq![
        NativeOp::All,
        NativeOp::Any,
        NativeOp::Chr,
        NativeOp::Compile,
        NativeOp::Dir,
        NativeOp::Eval,
        NativeOp::Getattr,
        NativeOp::Hasattr,
        NativeOp::Id,
        NativeOp::Isinstance,
        NativeOp::Len,
        NativeOp::Locals,
        NativeOp::Print,
        NativeOp::Range,
        NativeOp::Setattr,
    ]
}

/// The namespace of the builtins: each builtin function under its name,
/// bound to the callable stored at its place from `first` on, and each
/// built-in class under its name.
pub open spec fn builtins_namespace(first: int) -> Bindings {
    let b = Seq::<(Seq<char>, usize)>::empty();
    let b = ns_set(b, "all"@, (first + 0) as usize);
    let b = ns_set(b, "any"@, (first + 1) as usize);
    let b = ns_set(b, "bool"@, BOOL_TYPE);
    let b = ns_set(b, "chr"@, (first + 2) as usize);
    let b = ns_set(b, "compile"@, (first + 3) as usize);
    let b = ns_set(b, "dict"@, DICT_TYPE);
    let b = ns_set(b, "dir"@, (first + 4) as usize);
    let b = ns_set(b, "eval"@, (first + 5) as usize);
    let b = ns_set(b, "getattr"@, (first + 6) as usize);
    let b = ns_set(b, "hasattr"@, (first + 7) as usize);
    let b = ns_set(b, "id"@, (first + 8) as usize);
    let b = ns_set(b, "int"@, INT_TYPE);
    let b = ns_set(b, "isinstance"@, (first + 9) as usize);
    let b = ns_set(b, "len"@, (first + 10) as usize);
    let b = ns_set(b, "list"@, LIST_TYPE);
    let b = ns_set(b, "locals"@, (first + 11) as usize);
    let b = ns_set(b, "print"@, (first + 12) as usize);
    let b = ns_set(b, "range"@, (first + 13) as usize);
    let b = ns_set(b, "setattr"@, (first + 14) as usize);
    let b = ns_set(b, "str"@, STR_TYPE);
    let b = ns_set(b, "tuple"@, TUPLE_TYPE);
    let b = ns_set(b, "type"@, TYPE_TYPE);
    let b = ns_set(b, "object"@, OBJECT);
    let b = ns_set(b, "BaseException"@, BASE_EXCEPTION);
    let b = ns_set(b, "Exception"@, EXCEPTION);
    let b = ns_set(b, "AssertionError"@, ASSERTION_ERROR);
    let b = ns_set(b, "AttributeError"@, ATTRIBUTE_ERROR);
    let b = ns_set(b, "NameError"@, NAME_ERROR);
    let b = ns_set(b, "RuntimeError"@, RUNTIME_ERROR);
    let b = ns_set(b, "NotImplementedError"@, NOT_IMPLEMENTED_ERROR);
    let b = ns_set(b, "TypeError"@, TYPE_ERROR);
    let b = ns_set(b, "ValueError"@, VALUE_ERROR);
    b
}

/// The object under `module` is the module of the builtins: it is named
/// `__builtins__`, and its namespace is an outermost scope over a dictionary
/// with the bindings of [`builtins_namespace`], stored behind the callables
/// of the builtin functions, which start at `first`.
pub open spec fn is_builtins_module(heap: Heap, first: int, module: int) -> bool {
    let locals = first + builtin_ops().len();
    &&& module == locals + 2
    &&& heap.len() == module + 1
    &&& forall|k: int|
        0 <= k < builtin_ops().len() ==> (#[trigger] heap[first + k]).kind == (PyObjectKind::RustFunction {
            op: builtin_ops()[k],
        })
    &&& heap[locals].kind is Dict
    &&& heap[locals].typ == Some(TYPE_TYPE)
    &&& heap[locals].bindings() == builtins_namespace(first)
    &&& heap[locals + 1] == (PyObject {
        kind: PyObjectKind::Scope { locals: locals as usize, parent: None },
        typ: Some(TYPE_TYPE),
    })
    &&& heap[module].typ == Some(TYPE_TYPE)
    &&& heap[module].kind matches PyObjectKind::Module { name, dict }
    &&& name@ == "__builtins__"@
    &&& dict == locals + 1
}

/// Binds `name` to `value` among `entries`.
fn define(entries: &mut Vec<Entry>, name: &str, value: usize)
    requires
        ns_distinct(bindings_of(old(entries)@)),
    ensures
        ns_distinct(bindings_of(final(entries)@)),
        bindings_of(final(entries)@) == ns_set(bindings_of(old(entries)@), name@, value),
        forall|bound: int|
            ns_below(bindings_of(old(entries)@), bound) && value < bound ==> #[trigger] ns_below(
                bindings_of(final(entries)@),
                bound,
            ),
{
    proof {
        assert forall|bound: int| ns_below(bindings_of(entries@), bound) && value < bound implies #[trigger] ns_below(
            ns_set(bindings_of(entries@), name@, value),
            bound,
        ) by {
            lemma_ns_set_below(bindings_of(entries@), name@, value, bound);
        }
    }
    entries_set(entries, String::from_str(name), value);
}

/// Stores a callable for each builtin function, in the order of
/// [`builtin_ops`], and returns the handle of the first.
fn make_functions(ctx: &mut PyContext) -> (first: usize)
    requires
        old(ctx).wf(),
    ensures
        final(ctx).wf(),
        first == old(ctx).heap().len(),
        final(ctx).heap().len() == first + builtin_ops().len(),
        heap_extends(old(ctx).heap(), final(ctx).heap()),
        forall|i: int| 0 <= i < first ==> #[trigger] final(ctx).heap()[i] == old(ctx).heap()[i],
        forall|k: int|
            0 <= k < builtin_ops().len() ==> (#[trigger] final(ctx).heap()[first + k]).kind == (
            PyObjectKind::RustFunction { op: builtin_ops()[k] }),
{
    let ops: Vec<NativeOp> = vec![
        NativeOp::All,
        NativeOp::Any,
        NativeOp::Chr,
        NativeOp::Compile,
        NativeOp::Dir,
        NativeOp::Eval,
        NativeOp::Getattr,
        NativeOp::Hasattr,
        NativeOp::Id,
        NativeOp::Isinstance,
        NativeOp::Len,
        NativeOp::Locals,
        NativeOp::Print,
        NativeOp::Range,
        NativeOp::Setattr,
    ];
    assert(ops@ =~= builtin_ops());
    let first = ctx.objects.len();
    let mut k: usize = 0;
    while k < ops.len()
        invariant
            k <= ops.len(),
            ops@ == builtin_ops(),
            ctx.wf(),
            first == old(ctx).heap().len(),
            ctx.heap().len() == first + k,
            heap_extends(old(ctx).heap(), ctx.heap()),
            forall|i: int| 0 <= i < first ==> #[trigger] ctx.heap()[i] == old(ctx).heap()[i],
            forall|j: int|
                0 <= j < k ==> (#[trigger] ctx.heap()[first + j]).kind == (PyObjectKind::RustFunction {
                    op: builtin_ops()[j],
                }),
        decreases ops.len() - k,
    {
        let ghost filled = ctx.heap();
        let id = ctx.new_rustfunc(ops[k]);
        proof {
            lemma_extends_trans(old(ctx).heap(), filled, ctx.heap());
            assert(forall|i: int| 0 <= i < filled.len() ==> #[trigger] ctx.heap()[i] == filled[i]);
            assert forall|j: int| 0 <= j < k + 1 implies (#[trigger] ctx.heap()[first + j]).kind == (
            PyObjectKind::RustFunction { op: builtin_ops()[j] }) by {
                if j < k {
                    assert(ctx.heap()[first + j] == filled[first + j]);
                }
            }
        }
        k += 1;
    }
    first
}

/// The entries of the namespace of the builtins, for callables that start
/// at `first`.
fn builtin_entries(first: usize, limit: usize) -> (dict: Vec<Entry>)
    requires
        first + 15 <= limit,
        CORE_LEN <= limit,
    ensures
        bindings_of(dict@) == builtins_namespace(first as int),
        ns_distinct(bindings_of(dict@)),
        ns_below(bindings_of(dict@), limit as int),
{
    let mut dict: Vec<Entry> = Vec::new();
    assert(bindings_of(dict@) =~= Seq::empty());
    define(&mut dict, "all", first + 0);
    define(&mut dict, "any", first + 1);
    define(&mut dict, "bool", BOOL_TYPE);
    define(&mut dict, "chr", first + 2);
    define(&mut dict, "compile", first + 3);
    define(&mut dict, "dict", DICT_TYPE);
    define(&mut dict, "dir", first + 4);
    define(&mut dict, "eval", first + 5);
    define(&mut dict, "getattr", first + 6);
    define(&mut dict, "hasattr", first + 7);
    define(&mut dict, "id", first + 8);
    define(&mut dict, "int", INT_TYPE);
    define(&mut dict, "isinstance", first + 9);
    define(&mut dict, "len", first + 10);
    define(&mut dict, "list", LIST_TYPE);
    define(&mut dict, "locals", first + 11);
    define(&mut dict, "print", first + 12);
    define(&mut dict, "range", first + 13);
    define(&mut dict, "setattr", first + 14);
    define(&mut dict, "str", STR_TYPE);
    define(&mut dict, "tuple", TUPLE_TYPE);
    define(&mut dict, "type", TYPE_TYPE);
    define(&mut dict, "object", OBJECT);
    define(&mut dict, "BaseException", BASE_EXCEPTION);
    define(&mut dict, "Exception", EXCEPTION);
    define(&mut dict, "AssertionError", ASSERTION_ERROR);
    define(&mut dict, "AttributeError", ATTRIBUTE_ERROR);
    define(&mut dict, "NameError", NAME_ERROR);
    define(&mut dict, "RuntimeError", RUNTIME_ERROR);
    define(&mut dict, "NotImplementedError", NOT_IMPLEMENTED_ERROR);
    define(&mut dict, "TypeError", TYPE_ERROR);
    define(&mut dict, "ValueError", VALUE_ERROR);
    dict
}

/// Stores the module of the builtins and returns its handle: a callable for
/// each builtin function, a dictionary that binds them and the built-in
/// classes under their names, an outermost scope over it, and the module
/// `__builtins__` over that.
pub fn make_module(ctx: &mut PyContext) -> (module: usize)
    requires
        old(ctx).wf(),
    ensures
        final(ctx).wf(),
        heap_extends(old(ctx).heap(), final(ctx).heap()),
        forall|i: int| 0 <= i < old(ctx).heap().len() ==> #[trigger] final(ctx).heap()[i] == old(ctx).heap()[i],
        is_builtins_module(final(ctx).heap(), old(ctx).heap().len() as int, module as int),
{
    let ghost before = ctx.heap();
    let first = make_functions(ctx);
    let ghost made = ctx.heap();
    let dict = builtin_entries(first, ctx.objects.len());
    assert forall|k: int| 0 <= k < dict@.len() implies (#[trigger] dict@[k]).value < made.len() by {
        assert(bindings_of(dict@)[k].1 == dict@[k].value);
    }
    let d2 = ctx.new_object(PyObject { kind: PyObjectKind::Dict { elements: dict }, typ: Some(TYPE_TYPE) });
    let scope = ctx.new_scope(d2, None);
    let obj = ctx.new_module(String::from_str("__builtins__"), scope);
    proof {
        let after = ctx.heap();
        assert(forall|i: int| 0 <= i < made.len() ==> #[trigger] after[i] == made[i]);
        assert forall|k: int| 0 <= k < builtin_ops().len() implies (#[trigger] after[first + k]).kind == (
        PyObjectKind::RustFunction { op: builtin_ops()[k] }) by {
            assert(after[first + k] == made[first + k]);
        }
        assert(heap_extends(before, after));
    }
    obj
}

} // verus!
