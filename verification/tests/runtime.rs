use pyruntime::builtins::{
    builtin_all, builtin_any, builtin_build_class_, builtin_chr, builtin_compile, builtin_dir, builtin_eval,
    builtin_getattr, builtin_hasattr, builtin_id, builtin_isinstance, builtin_len, builtin_locals, builtin_print,
    builtin_range, builtin_setattr, compile_result, get_locals, make_module,
};
use pyruntime::objtype::{isinstance, issubclass};
use pyruntime::pyobject::{
    exception_class, ExceptionKind, NativeOp, PyContext, PyObjectKind, ATTRIBUTE_ERROR, BASE_EXCEPTION, CORE_LEN,
    EXCEPTION, FALSE, INT_TYPE, NAME_ERROR, NONE, NOT_IMPLEMENTED_ERROR, OBJECT, RUNTIME_ERROR, TRUE, TYPE_ERROR,
    TYPE_TYPE, VALUE_ERROR,
};
use pyruntime::render::{decimal_string, render};
use pyruntime::vm::{Outcome, PyFuncArgs, Request, VirtualMachine};

fn args(v: Vec<usize>) -> PyFuncArgs {
    PyFuncArgs { args: v }
}

fn returned(out: Outcome) -> usize {
    match out {
        Outcome::Return(v) => v,
        _ => panic!("the call did not return a value"),
    }
}

fn error_of(vm: &VirtualMachine, out: Outcome) -> (ExceptionKind, String) {
    match out {
        Outcome::Raise(e) => match &vm.ctx.objects[e].kind {
            PyObjectKind::Exception { kind, message, .. } => (*kind, message.clone()),
            _ => panic!("what was raised is no error value"),
        },
        _ => panic!("the call raised nothing"),
    }
}

fn int_of(vm: &VirtualMachine, id: usize) -> i64 {
    match &vm.ctx.objects[id].kind {
        PyObjectKind::Integer { value } => *value,
        _ => panic!("not an integer"),
    }
}

fn str_of(vm: &VirtualMachine, id: usize) -> String {
    match &vm.ctx.objects[id].kind {
        PyObjectKind::String { value } => value.clone(),
        _ => panic!("not a string"),
    }
}

#[test]
fn identity_is_stable_and_distinct() {
    let mut vm = VirtualMachine::new();
    let a = vm.ctx.new_int(7);
    let b = vm.ctx.new_int(7);
    assert_ne!(vm.ctx.get_id(a), vm.ctx.get_id(b));
    assert_eq!(vm.ctx.get_id(a), vm.ctx.get_id(a));
    let first = returned(builtin_id(&mut vm, args(vec![a])));
    let second = returned(builtin_id(&mut vm, args(vec![a])));
    assert_eq!(int_of(&vm, first), a as i64);
    assert_eq!(int_of(&vm, first), int_of(&vm, second));
    let other = returned(builtin_id(&mut vm, args(vec![b])));
    assert_ne!(int_of(&vm, first), int_of(&vm, other));
}

#[test]
fn set_then_get_attribute_gives_the_same_value() {
    let mut vm = VirtualMachine::new();
    let obj = vm.ctx.new_instance(OBJECT);
    let v = vm.ctx.new_int(42);
    assert!(vm.set_attribute(obj, "x".to_string(), v).is_ok());
    assert_eq!(vm.get_attribute(obj, &"x".to_string()), Ok(v));
    assert!(vm.has_attribute(obj, &"x".to_string()));
    let w = vm.ctx.new_int(43);
    assert!(vm.set_attribute(obj, "x".to_string(), w).is_ok());
    assert_eq!(vm.get_attribute(obj, &"x".to_string()), Ok(w));
}

#[test]
fn set_attribute_never_writes_to_the_type() {
    let mut vm = VirtualMachine::new();
    let a = vm.ctx.new_instance(OBJECT);
    let b = vm.ctx.new_instance(OBJECT);
    let v = vm.ctx.new_int(1);
    assert!(vm.set_attribute(a, "x".to_string(), v).is_ok());
    assert!(!vm.has_attribute(b, &"x".to_string()));
    assert!(!vm.has_attribute(OBJECT, &"x".to_string()));
}

#[test]
fn set_attribute_on_an_integer_is_a_type_error() {
    let mut vm = VirtualMachine::new();
    let n = vm.ctx.new_int(1);
    let v = vm.ctx.new_int(2);
    let e = vm.set_attribute(n, "x".to_string(), v).unwrap_err();
    let (kind, message) = error_of(&vm, Outcome::Raise(e));
    assert_eq!(kind, ExceptionKind::TypeError);
    assert_eq!(message, "'int' object does not take attributes");
}

#[test]
fn missing_attribute_is_an_attribute_error() {
    let mut vm = VirtualMachine::new();
    let obj = vm.ctx.new_instance(OBJECT);
    let before = vm.ctx.objects.len();
    let e = vm.get_attribute(obj, &"missing".to_string()).unwrap_err();
    assert_eq!(e, before);
    let (kind, message) = error_of(&vm, Outcome::Raise(e));
    assert_eq!(kind, ExceptionKind::AttributeError);
    assert_eq!(message, "'object' object has no attribute 'missing'");
    assert_eq!(vm.ctx.objects[e].typ, Some(ATTRIBUTE_ERROR));
    assert!(!vm.has_attribute(obj, &"missing".to_string()));
}

#[test]
fn every_error_kind_is_a_base_exception() {
    let mut vm = VirtualMachine::new();
    let kinds = vec![
        ExceptionKind::BaseException,
        ExceptionKind::Exception,
        ExceptionKind::AssertionError,
        ExceptionKind::AttributeError,
        ExceptionKind::NameError,
        ExceptionKind::RuntimeError,
        ExceptionKind::NotImplementedError,
        ExceptionKind::TypeError,
        ExceptionKind::ValueError,
    ];
    for kind in kinds {
        let e = vm.ctx.new_exception(kind, "boom".to_string(), None);
        assert!(isinstance(&vm.ctx, e, BASE_EXCEPTION));
        assert!(isinstance(&vm.ctx, e, exception_class(kind)));
        assert!(isinstance(&vm.ctx, e, OBJECT));
    }
    assert!(issubclass(&vm.ctx, NOT_IMPLEMENTED_ERROR, RUNTIME_ERROR));
    assert!(issubclass(&vm.ctx, NOT_IMPLEMENTED_ERROR, EXCEPTION));
    assert!(!issubclass(&vm.ctx, RUNTIME_ERROR, NOT_IMPLEMENTED_ERROR));
    assert!(!issubclass(&vm.ctx, TYPE_ERROR, VALUE_ERROR));
    assert!(!issubclass(&vm.ctx, BASE_EXCEPTION, EXCEPTION));
    let n = vm.ctx.new_int(1);
    assert!(!isinstance(&vm.ctx, n, BASE_EXCEPTION));
    assert!(isinstance(&vm.ctx, n, INT_TYPE));
}

#[test]
fn names_resolve_through_three_scopes() {
    let mut vm = VirtualMachine::new();
    let d0 = vm.ctx.new_dict();
    let s0 = vm.ctx.new_scope(d0, None);
    let d1 = vm.ctx.new_dict();
    let s1 = vm.ctx.new_scope(d1, Some(s0));
    let d2 = vm.ctx.new_dict();
    let s2 = vm.ctx.new_scope(d2, Some(s1));
    let v = vm.ctx.new_int(5);
    assert!(vm.bind(s0, "a".to_string(), v));
    assert_eq!(vm.resolve(s2, &"a".to_string()), Ok(v));
    let e = vm.resolve(s2, &"b".to_string()).unwrap_err();
    let (kind, message) = error_of(&vm, Outcome::Raise(e));
    assert_eq!(kind, ExceptionKind::NameError);
    assert_eq!(message, "name 'b' is not defined");
    assert_eq!(vm.ctx.objects[e].typ, Some(NAME_ERROR));
    let w = vm.ctx.new_int(6);
    assert!(vm.bind(s2, "a".to_string(), w));
    assert_eq!(vm.resolve(s2, &"a".to_string()), Ok(w));
    assert_eq!(vm.resolve(s1, &"a".to_string()), Ok(v));
    assert_eq!(vm.resolve(s0, &"a".to_string()), Ok(v));
}

#[test]
fn class_construction_with_a_user_defined_body() {
    let mut vm = VirtualMachine::new();
    let code = vm.ctx.new_code(vec!["ns".to_string()], 17);
    let body = vm.ctx.new_function(code, vm.current);
    let name = vm.ctx.new_str("Greeter".to_string());
    let f = vm.ctx.new_rustfunc(NativeOp::Len);
    let before = vm.ctx.objects.len();
    let out = builtin_build_class_(&mut vm, args(vec![body, name]));
    let (run_code, run_scope, class) = match out {
        Outcome::Defer { request: Request::Run { code, scope }, then: Some(class) } => (code, scope, class),
        _ => panic!("the body was not handed to the driver"),
    };
    assert_eq!(run_code, code);
    let namespace = before;
    match &vm.ctx.objects[run_scope].kind {
        PyObjectKind::Scope { locals, parent } => {
            assert_eq!(*parent, Some(vm.current));
            assert_eq!(vm.ctx.dict_get(*locals, &"ns".to_string()), Some(namespace));
        },
        _ => panic!("no scope"),
    }
    match &vm.ctx.objects[class].kind {
        PyObjectKind::Class { name, bases, dict } => {
            assert_eq!(name, "Greeter");
            assert_eq!(bases, &vec![OBJECT]);
            assert_eq!(*dict, namespace);
        },
        _ => panic!("no class"),
    }
    assert_eq!(vm.ctx.objects[class].typ, Some(TYPE_TYPE));
    // What the driver does when it runs the body: it binds `greet`.
    assert!(vm.ctx.dict_set(namespace, "greet".to_string(), f));
    let instance = vm.ctx.new_instance(class);
    assert_eq!(vm.get_attribute(instance, &"greet".to_string()), Ok(f));
    assert!(isinstance(&vm.ctx, instance, OBJECT));
    assert!(isinstance(&vm.ctx, instance, class));
}

#[test]
fn class_construction_keeps_explicit_bases_before_the_root() {
    let mut vm = VirtualMachine::new();
    let body = vm.ctx.new_rustfunc(NativeOp::All);
    let name = vm.ctx.new_str("Problem".to_string());
    let class = returned(builtin_build_class_(&mut vm, args(vec![body, name, VALUE_ERROR])));
    match &vm.ctx.objects[class].kind {
        PyObjectKind::Class { bases, .. } => assert_eq!(bases, &vec![VALUE_ERROR, OBJECT]),
        _ => panic!("no class"),
    }
    assert!(issubclass(&vm.ctx, class, BASE_EXCEPTION));
    let instance = vm.ctx.new_instance(class);
    assert!(isinstance(&vm.ctx, instance, EXCEPTION));
}

#[test]
fn class_construction_by_invoke_wants_a_string_name() {
    let mut vm = VirtualMachine::new();
    let build = vm.ctx.new_rustfunc(NativeOp::BuildClass);
    let body = vm.ctx.new_rustfunc(NativeOp::All);
    let n = vm.ctx.new_int(3);
    let out = vm.invoke(build, args(vec![body, n]));
    let (kind, message) = error_of(&vm, out);
    assert_eq!(kind, ExceptionKind::TypeError);
    assert_eq!(message, "Class name must be a string");
}

#[test]
fn len_of_a_dict_through_invoke() {
    let mut vm = VirtualMachine::new();
    let len = vm.ctx.new_rustfunc(NativeOp::Len);
    let d = vm.ctx.new_dict();
    let out = vm.invoke(len, args(vec![d]));
    let n = returned(out);
    assert_eq!(int_of(&vm, n), 0);
    let v = vm.ctx.new_int(1);
    assert!(vm.ctx.dict_set(d, "a".to_string(), v));
    assert!(vm.ctx.dict_set(d, "b".to_string(), v));
    assert!(vm.ctx.dict_set(d, "c".to_string(), v));
    assert!(vm.ctx.dict_set(d, "a".to_string(), v));
    let out = vm.invoke(len, args(vec![d]));
    let n = returned(out);
    assert_eq!(int_of(&vm, n), 3);
}

#[test]
fn len_of_tuple_string_and_others() {
    let mut vm = VirtualMachine::new();
    let a = vm.ctx.new_int(1);
    let t = vm.ctx.new_tuple(vec![a, a]);
    let n = returned(builtin_len(&mut vm, args(vec![t])));
    assert_eq!(int_of(&vm, n), 2);
    let s = vm.ctx.new_str("héllo".to_string());
    let n = returned(builtin_len(&mut vm, args(vec![s])));
    assert_eq!(int_of(&vm, n), 5);
    let out = builtin_len(&mut vm, args(vec![a]));
    let (kind, message) = error_of(&vm, out);
    assert_eq!(kind, ExceptionKind::TypeError);
    assert_eq!(message, "object of type 'int' has no len()");
    let out = builtin_len(&mut vm, args(vec![]));
    assert_eq!(error_of(&vm, out), (ExceptionKind::TypeError, "Expected 1 arguments".to_string()));
}

#[test]
fn len_falls_back_to_the_len_attribute() {
    let mut vm = VirtualMachine::new();
    let obj = vm.ctx.new_instance(OBJECT);
    let code = vm.ctx.new_code(vec![], 3);
    let method = vm.ctx.new_function(code, vm.current);
    assert!(vm.set_attribute(obj, "__len__".to_string(), method).is_ok());
    match builtin_len(&mut vm, args(vec![obj])) {
        Outcome::Defer { request: Request::Run { code: c, .. }, then: None } => assert_eq!(c, code),
        _ => panic!("the method was not handed to the driver"),
    }
    let native = vm.ctx.new_rustfunc(NativeOp::Locals);
    assert!(vm.set_attribute(obj, "__len__".to_string(), native).is_ok());
    let before = vm.ctx.objects.len();
    let snapshot = returned(builtin_len(&mut vm, args(vec![obj])));
    assert_eq!(snapshot, before);
    assert_eq!(render(&vm.ctx, snapshot), "{}");
}

#[test]
fn invoke_of_what_is_not_callable() {
    let mut vm = VirtualMachine::new();
    let n = vm.ctx.new_int(1);
    let out = vm.invoke(n, PyFuncArgs::default());
    assert_eq!(error_of(&vm, out), (ExceptionKind::TypeError, "object is not callable".to_string()));
}

#[test]
fn invoke_binds_arguments_by_position() {
    let mut vm = VirtualMachine::new();
    let code = vm.ctx.new_code(vec!["a".to_string(), "b".to_string(), "c".to_string()], 1);
    let f = vm.ctx.new_function(code, vm.current);
    let x = vm.ctx.new_int(10);
    let y = vm.ctx.new_int(20);
    match vm.invoke(f, args(vec![x, y])) {
        Outcome::Defer { request: Request::Run { code: c, scope }, then: None } => {
            assert_eq!(c, code);
            assert_eq!(vm.find_name(scope, &"a".to_string()), Some(x));
            assert_eq!(vm.find_name(scope, &"b".to_string()), Some(y));
            assert_eq!(vm.find_name(scope, &"c".to_string()), None);
        },
        _ => panic!("the function was not handed to the driver"),
    }
}

#[test]
fn rendering_is_deterministic() {
    let mut vm = VirtualMachine::new();
    let a = vm.ctx.new_int(1);
    let b = vm.ctx.new_int(-20);
    let c = vm.ctx.new_int(300);
    let l = vm.ctx.new_list(vec![a, b, c]);
    assert_eq!(render(&vm.ctx, l), "[1, -20, 300]");
    assert_eq!(render(&vm.ctx, l), render(&vm.ctx, l));
    let s = vm.ctx.new_str("hi".to_string());
    let t = vm.ctx.new_tuple(vec![s, l, NONE, TRUE, FALSE]);
    assert_eq!(render(&vm.ctx, t), "(hi, [1, -20, 300], None, True, False)");
    let d = vm.ctx.new_dict();
    assert_eq!(render(&vm.ctx, d), "{}");
    assert!(vm.ctx.dict_set(d, "k".to_string(), a));
    assert!(vm.ctx.dict_set(d, "self".to_string(), d));
    assert_eq!(
        render(&vm.ctx, d),
        "{k: 1, self: {k: 1, self: {k: 1, self: {k: 1, self: {k: 1, self: {k: 1, self: {k: 1, self: {k: 1, self: {...}}}}}}}}}"
    );
    assert_eq!(render(&vm.ctx, INT_TYPE), "<class 'int'>");
}

#[test]
fn decimal_strings() {
    assert_eq!(decimal_string(0), "0");
    assert_eq!(decimal_string(7), "7");
    assert_eq!(decimal_string(-1), "-1");
    assert_eq!(decimal_string(1234567890), "1234567890");
    assert_eq!(decimal_string(i64::MAX), "9223372036854775807");
    assert_eq!(decimal_string(i64::MIN), "-9223372036854775808");
}

#[test]
fn all_and_any() {
    let mut vm = VirtualMachine::new();
    let zero = vm.ctx.new_int(0);
    let one = vm.ctx.new_int(1);
    let empty = vm.ctx.new_str(String::new());
    assert_eq!(returned(builtin_all(&mut vm, args(vec![]))), TRUE);
    assert_eq!(returned(builtin_any(&mut vm, args(vec![]))), FALSE);
    assert_eq!(returned(builtin_all(&mut vm, args(vec![one, TRUE]))), TRUE);
    assert_eq!(returned(builtin_all(&mut vm, args(vec![one, zero]))), FALSE);
    assert_eq!(returned(builtin_any(&mut vm, args(vec![zero, NONE, empty, FALSE]))), FALSE);
    assert_eq!(returned(builtin_any(&mut vm, args(vec![zero, one]))), TRUE);
}

#[test]
fn chr_gives_the_character_or_an_underscore() {
    let mut vm = VirtualMachine::new();
    let a = vm.ctx.new_int(97);
    let s = returned(builtin_chr(&mut vm, args(vec![a])));
    assert_eq!(str_of(&vm, s), "a");
    let surrogate = vm.ctx.new_int(0xD800);
    let s = returned(builtin_chr(&mut vm, args(vec![surrogate])));
    assert_eq!(str_of(&vm, s), "_");
    let wide = vm.ctx.new_int(0x1_0000_0000 + 0x263A);
    let s = returned(builtin_chr(&mut vm, args(vec![wide])));
    assert_eq!(str_of(&vm, s), "\u{263A}");
    let out = builtin_chr(&mut vm, args(vec![NONE]));
    assert_eq!(error_of(&vm, out), (ExceptionKind::TypeError, "an integer is required".to_string()));
    let out = builtin_chr(&mut vm, args(vec![]));
    assert_eq!(error_of(&vm, out), (ExceptionKind::TypeError, "Expected 1 arguments".to_string()));
}

#[test]
fn compile_asks_the_driver() {
    let mut vm = VirtualMachine::new();
    let s = vm.ctx.new_str("1 + 2".to_string());
    match builtin_compile(&mut vm, args(vec![s])) {
        Outcome::Defer { request: Request::Compile { source }, then: None } => assert_eq!(source, "1 + 2"),
        _ => panic!("no compilation was asked for"),
    }
    let out = builtin_compile(&mut vm, args(vec![]));
    assert_eq!(error_of(&vm, out), (ExceptionKind::TypeError, "Expected at least 1 arguments".to_string()));
    let code = vm.ctx.new_code(vec![], 9);
    assert_eq!(returned(compile_result(&mut vm, Ok(code))), code);
    let out = compile_result(&mut vm, Err("bad syntax".to_string()));
    assert_eq!(error_of(&vm, out), (ExceptionKind::TypeError, "bad syntax".to_string()));
}

#[test]
fn locals_snapshot_is_a_copy() {
    let mut vm = VirtualMachine::new();
    let v = vm.ctx.new_int(1);
    assert!(vm.bind(vm.current, "x".to_string(), v));
    let snapshot = get_locals(&mut vm);
    let second = returned(builtin_locals(&mut vm, args(vec![])));
    assert_ne!(snapshot, second);
    assert_ne!(second, vm.get_locals());
    assert_ne!(snapshot, vm.get_locals());
    assert!(vm.bind(vm.current, "y".to_string(), v));
    assert_eq!(vm.ctx.dict_get(snapshot, &"x".to_string()), Some(v));
    assert_eq!(vm.ctx.dict_get(snapshot, &"y".to_string()), None);
    assert_eq!(vm.ctx.dict_get(second, &"x".to_string()), Some(v));
    assert_eq!(vm.ctx.dict_get(second, &"y".to_string()), None);
    assert_eq!(vm.ctx.dict_get(vm.get_locals(), &"y".to_string()), Some(v));
    let listed = returned(builtin_dir(&mut vm, args(vec![])));
    assert_eq!(vm.ctx.dict_get(listed, &"y".to_string()), Some(v));
    let of_object = returned(builtin_dir(&mut vm, args(vec![v])));
    assert_eq!(render(&vm.ctx, of_object), "{}");
    let out = builtin_locals(&mut vm, args(vec![v]));
    assert_eq!(error_of(&vm, out), (ExceptionKind::TypeError, "Expected 0 arguments".to_string()));
}

#[test]
fn eval_makes_an_outermost_scope() {
    let mut vm = VirtualMachine::new();
    let code = vm.ctx.new_code(vec![], 2);
    let globals = vm.ctx.new_dict();
    let locals = vm.ctx.new_dict();
    match builtin_eval(&mut vm, args(vec![code, globals, locals])) {
        Outcome::Defer { request: Request::Run { code: c, scope }, then: None } => {
            assert_eq!(c, code);
            match &vm.ctx.objects[scope].kind {
                PyObjectKind::Scope { locals: l, parent } => {
                    assert_eq!(*l, locals);
                    assert_eq!(*parent, None);
                },
                _ => panic!("no scope"),
            }
        },
        _ => panic!("nothing to run"),
    }
    let out = builtin_eval(&mut vm, args(vec![code]));
    assert_eq!(error_of(&vm, out), (ExceptionKind::TypeError, "Expected 3 arguments".to_string()));
}

#[test]
fn getattr_hasattr_setattr() {
    let mut vm = VirtualMachine::new();
    let obj = vm.ctx.new_instance(OBJECT);
    let name = vm.ctx.new_str("x".to_string());
    let v = vm.ctx.new_int(9);
    assert_eq!(returned(builtin_hasattr(&mut vm, args(vec![obj, name]))), FALSE);
    assert_eq!(returned(builtin_setattr(&mut vm, args(vec![obj, name, v]))), NONE);
    assert_eq!(returned(builtin_hasattr(&mut vm, args(vec![obj, name]))), TRUE);
    assert_eq!(returned(builtin_getattr(&mut vm, args(vec![obj, name]))), v);
    let out = builtin_getattr(&mut vm, args(vec![obj, v]));
    assert_eq!(error_of(&vm, out), (ExceptionKind::TypeError, "Attr can only be str for now".to_string()));
    let out = builtin_getattr(&mut vm, args(vec![obj]));
    assert_eq!(error_of(&vm, out), (ExceptionKind::TypeError, "Expected 2 arguments".to_string()));
    let missing = vm.ctx.new_str("y".to_string());
    let out = builtin_getattr(&mut vm, args(vec![obj, missing]));
    assert_eq!(error_of(&vm, out).0, ExceptionKind::AttributeError);
    let out = builtin_setattr(&mut vm, args(vec![obj, name]));
    assert_eq!(error_of(&vm, out), (ExceptionKind::TypeError, "Expected 3 arguments".to_string()));
}

#[test]
fn isinstance_builtin() {
    let mut vm = VirtualMachine::new();
    let e = vm.ctx.new_exception(ExceptionKind::NotImplementedError, "later".to_string(), None);
    assert_eq!(returned(builtin_isinstance(&mut vm, args(vec![e, BASE_EXCEPTION]))), TRUE);
    assert_eq!(returned(builtin_isinstance(&mut vm, args(vec![e, TYPE_ERROR]))), FALSE);
}

#[test]
fn print_hands_the_line_to_the_driver() {
    let mut vm = VirtualMachine::new();
    let a = vm.ctx.new_int(1);
    let s = vm.ctx.new_str("two".to_string());
    match builtin_print(&mut vm, args(vec![a, s])) {
        Outcome::Defer { request: Request::Print { text }, then } => {
            assert_eq!(text, "1 two \n");
            assert_eq!(then, Some(NONE));
        },
        _ => panic!("nothing to print"),
    }
}

#[test]
fn range_makes_a_list_of_new_integers() {
    let mut vm = VirtualMachine::new();
    let n = vm.ctx.new_int(3);
    let l = returned(builtin_range(&mut vm, args(vec![n])));
    assert_eq!(render(&vm.ctx, l), "[0, 1, 2]");
    let m = vm.ctx.new_int(-3);
    let l = returned(builtin_range(&mut vm, args(vec![m])));
    assert_eq!(render(&vm.ctx, l), "[]");
    let out = builtin_range(&mut vm, args(vec![NONE]));
    assert_eq!(error_of(&vm, out), (ExceptionKind::TypeError, "an integer is required".to_string()));
}

#[test]
fn builtins_module_binds_every_name() {
    let mut ctx = PyContext::new();
    assert_eq!(ctx.objects.len(), CORE_LEN);
    let module = make_module(&mut ctx);
    let vm = VirtualMachine { ctx, current: module - 1 };
    match &vm.ctx.objects[module].kind {
        PyObjectKind::Module { name, dict } => {
            assert_eq!(name, "__builtins__");
            assert_eq!(*dict, module - 1);
        },
        _ => panic!("no module"),
    }
    let len = vm.find_name(module - 1, &"len".to_string()).unwrap();
    assert_eq!(vm.find_attribute(module, &"len".to_string()), Some(len));
    assert_eq!(vm.find_attribute(module, &"int".to_string()), Some(INT_TYPE));
    assert_eq!(vm.find_attribute(module, &"nothing".to_string()), None);
    assert!(matches!(&vm.ctx.objects[len].kind, PyObjectKind::RustFunction { op: NativeOp::Len }));
    let print = vm.find_name(module - 1, &"print".to_string()).unwrap();
    assert!(matches!(&vm.ctx.objects[print].kind, PyObjectKind::RustFunction { op: NativeOp::Print }));
    assert_eq!(vm.find_name(module - 1, &"int".to_string()), Some(INT_TYPE));
    assert_eq!(vm.find_name(module - 1, &"object".to_string()), Some(OBJECT));
    assert_eq!(vm.find_name(module - 1, &"ValueError".to_string()), Some(VALUE_ERROR));
    assert_eq!(vm.find_name(module - 1, &"NotImplementedError".to_string()), Some(NOT_IMPLEMENTED_ERROR));
    assert_eq!(vm.find_name(module - 1, &"nothing".to_string()), None);
    match &vm.ctx.objects[module - 2].kind {
        PyObjectKind::Dict { elements } => assert_eq!(elements.len(), 32),
        _ => panic!("no dictionary"),
    }
}

#[test]
fn class_construction_hands_on_an_error_of_the_body() {
    let mut vm = VirtualMachine::new();
    let not_callable = vm.ctx.new_int(1);
    let name = vm.ctx.new_str("Broken".to_string());
    let before = vm.ctx.objects.len();
    let out = builtin_build_class_(&mut vm, args(vec![not_callable, name]));
    assert_eq!(error_of(&vm, out), (ExceptionKind::TypeError, "object is not callable".to_string()));
    // Only the namespace and the error were stored: no class.
    assert_eq!(vm.ctx.objects.len(), before + 2);
    assert!(matches!(&vm.ctx.objects[before].kind, PyObjectKind::Dict { .. }));
    assert!(matches!(&vm.ctx.objects[before + 1].kind, PyObjectKind::Exception { .. }));
    let chr = vm.ctx.new_rustfunc(NativeOp::Chr);
    let out = builtin_build_class_(&mut vm, args(vec![chr, name]));
    assert_eq!(error_of(&vm, out), (ExceptionKind::TypeError, "an integer is required".to_string()));
}

#[test]
fn module_attributes_live_in_its_scope() {
    let mut ctx = PyContext::new();
    let module = make_module(&mut ctx);
    let mut vm = VirtualMachine { ctx, current: module - 1 };
    let v = vm.ctx.new_int(5);
    assert!(vm.set_attribute(module, "answer".to_string(), v).is_ok());
    assert_eq!(vm.get_attribute(module, &"answer".to_string()), Ok(v));
    assert_eq!(vm.resolve(module - 1, &"answer".to_string()), Ok(v));
    assert_eq!(vm.ctx.dict_get(module - 2, &"answer".to_string()), Some(v));
    let d = vm.ctx.new_dict();
    let plain = vm.ctx.new_module("plain".to_string(), d);
    assert!(vm.set_attribute(plain, "x".to_string(), v).is_ok());
    assert_eq!(vm.get_attribute(plain, &"x".to_string()), Ok(v));
    assert_eq!(vm.ctx.dict_get(d, &"x".to_string()), Some(v));
}

#[test]
fn unbound_name_through_three_scopes_over_the_builtins() {
    let mut ctx = PyContext::new();
    let module = make_module(&mut ctx);
    let s0 = module - 1;
    let mut vm = VirtualMachine { ctx, current: s0 };
    let d1 = vm.ctx.new_dict();
    let s1 = vm.ctx.new_scope(d1, Some(s0));
    let d2 = vm.ctx.new_dict();
    let s2 = vm.ctx.new_scope(d2, Some(s1));
    let before = vm.ctx.objects.len();
    let e = vm.resolve(s2, &"no_such_name".to_string()).unwrap_err();
    assert_eq!(e, before);
    assert_eq!(
        error_of(&vm, Outcome::Raise(e)),
        (ExceptionKind::NameError, "name 'no_such_name' is not defined".to_string())
    );
    assert_eq!(vm.resolve(s2, &"object".to_string()), Ok(OBJECT));
}
