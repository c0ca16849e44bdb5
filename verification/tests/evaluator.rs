//! Const-expression evaluator tests: constructors, accessors and
//! their error behavior.

use erg_kernel::error::ErrorKind;
use erg_kernel::eval::EvalContext;
use erg_kernel::eval::__array_getitem__;
use erg_kernel::eval::__dict_getitem__;
use erg_kernel::eval::__range_getitem__;
use erg_kernel::eval::call_const_function;
use erg_kernel::eval::class_func;
use erg_kernel::eval::inherit_func;
use erg_kernel::eval::inheritable_func;
use erg_kernel::eval::subsume_func;
use erg_kernel::eval::trait_func;
use erg_kernel::ty::Ty;
use erg_kernel::ty::mono;
use erg_kernel::universe::TypeUniverse;
use erg_kernel::value::GenKind;
use erg_kernel::value::TypeObj;
use erg_kernel::value::ValueArgs;
use erg_kernel::value::ValueObj;

fn built() -> TypeUniverse {
    let mut u = TypeUniverse::new(false);
    u.init_builtin_classes();
    u
}

fn type_arg(t: Ty) -> ValueObj {
    ValueObj::Type(TypeObj::Builtin(t))
}

#[test]
fn class_func_builds_a_class_descriptor() {
    let u = built();
    let ctx = EvalContext { name: "C".to_string(), universe: &u };
    let args = ValueArgs::new(vec![type_arg(mono("Int"))], vec![]);
    let v = class_func(args, &ctx).unwrap();
    match v {
        ValueObj::Type(TypeObj::Generated(g)) => {
            assert_eq!(g.kind, GenKind::Class);
            match &g.t {
                Ty::Mono(n) => assert_eq!(n, "C"),
                _ => panic!("nominal type expected"),
            }
            assert!(g.impls.is_none());
            assert!(g.additional.is_none());
        },
        _ => panic!("a generated class was expected"),
    }
}

#[test]
fn class_func_takes_requirement_by_keyword() {
    let u = built();
    let ctx = EvalContext { name: "C".to_string(), universe: &u };
    let args = ValueArgs::new(
        vec![],
        vec![
            ("Impl".to_string(), type_arg(mono("Show"))),
            ("Requirement".to_string(), type_arg(mono("Int"))),
        ],
    );
    let v = class_func(args, &ctx).unwrap();
    match v {
        ValueObj::Type(TypeObj::Generated(g)) => {
            assert!(g.impls.is_some());
        },
        _ => panic!("a generated class was expected"),
    }
}

#[test]
fn class_func_requires_requirement() {
    let u = built();
    let ctx = EvalContext { name: "C".to_string(), universe: &u };
    let args = ValueArgs::new(vec![], vec![]);
    let e = class_func(args, &ctx).unwrap_err();
    assert_eq!(e.kind, ErrorKind::KeyError);
    assert_eq!(e.msg, "Requirement is not passed");
}

#[test]
fn class_func_rejects_a_non_type_requirement() {
    let u = built();
    let ctx = EvalContext { name: "C".to_string(), universe: &u };
    let args = ValueArgs::new(vec![ValueObj::Nat(42)], vec![]);
    let e = class_func(args, &ctx).unwrap_err();
    assert_eq!(e.kind, ErrorKind::TypeError);
    assert_eq!(e.msg, "non-type object 42 is passed to Requirement");
}

#[test]
fn inherit_func_builds_a_subclass_descriptor() {
    let u = built();
    let ctx = EvalContext { name: "D".to_string(), universe: &u };
    let args = ValueArgs::new(
        vec![type_arg(mono("Int")), type_arg(mono("Show")), type_arg(mono("Eq"))],
        vec![],
    );
    let v = inherit_func(args, &ctx).unwrap();
    match v {
        ValueObj::Type(TypeObj::Generated(g)) => {
            assert_eq!(g.kind, GenKind::Inherited);
            assert!(g.impls.is_some());
            assert!(g.additional.is_some());
        },
        _ => panic!("a generated subclass was expected"),
    }
}

#[test]
fn inherit_func_requires_super() {
    let u = built();
    let ctx = EvalContext { name: "D".to_string(), universe: &u };
    let e = inherit_func(ValueArgs::new(vec![], vec![]), &ctx).unwrap_err();
    assert_eq!(e.kind, ErrorKind::KeyError);
    assert_eq!(e.msg, "Super is not passed");
    let e2 = inherit_func(ValueArgs::new(vec![ValueObj::Bool(true)], vec![]), &ctx).unwrap_err();
    assert_eq!(e2.kind, ErrorKind::TypeError);
    assert_eq!(e2.msg, "non-class object True is passed to Super");
}

#[test]
fn trait_func_and_subsume_func_build_trait_descriptors() {
    let u = built();
    let ctx = EvalContext { name: "T".to_string(), universe: &u };
    let v = trait_func(ValueArgs::new(vec![type_arg(mono("Record"))], vec![]), &ctx).unwrap();
    match v {
        ValueObj::Type(TypeObj::Generated(g)) => assert_eq!(g.kind, GenKind::Trait),
        _ => panic!("a generated trait was expected"),
    }
    let v2 = subsume_func(ValueArgs::new(vec![type_arg(mono("Ord"))], vec![]), &ctx).unwrap();
    match v2 {
        ValueObj::Type(TypeObj::Generated(g)) => assert_eq!(g.kind, GenKind::Subsumed),
        _ => panic!("a generated subtrait was expected"),
    }
    let e = subsume_func(ValueArgs::new(vec![ValueObj::Nat(1)], vec![]), &ctx).unwrap_err();
    assert_eq!(e.msg, "non-trait object 1 is passed to Super");
}

#[test]
fn inheritable_func_intersects_the_marker_once_per_call() {
    let u = built();
    let ctx = EvalContext { name: "C".to_string(), universe: &u };
    // Build a class with an Impl, then mark it inheritable twice.
    let args = ValueArgs::new(
        vec![type_arg(mono("Int")), type_arg(mono("Show"))],
        vec![],
    );
    let class = class_func(args, &ctx).unwrap();
    let once = inheritable_func(ValueArgs::new(vec![class], vec![]), &ctx).unwrap();
    let impls_once = impls_of(&once);
    match &impls_once {
        Ty::And(l, r) => {
            assert!(matches!(&**l, Ty::Mono(n) if n == "Show"));
            assert!(matches!(&**r, Ty::Mono(n) if n == "InheritableType"));
        },
        _ => panic!("one intersection expected"),
    }
    let twice = inheritable_func(ValueArgs::new(vec![once], vec![]), &ctx).unwrap();
    let impls_twice = impls_of(&twice);
    // The representation nests...
    match &impls_twice {
        Ty::And(l, _) => assert!(matches!(&**l, Ty::And(_, _))),
        _ => panic!("a nested intersection expected"),
    }
    // ...but the subtype relation does not change: for conformance
    // queries the nested form behaves as the flat one.
    let marker = mono("InheritableType");
    for cand in [Ty::Never, impls_once.clone(), impls_twice.clone()] {
        let below_nested = u.is_subtype(&cand, &impls_twice);
        let below_flat = u.is_subtype(&cand, &impls_once) && u.is_subtype(&cand, &marker);
        assert_eq!(below_nested, below_flat);
    }
}

#[test]
fn inheritable_func_fills_an_absent_impl_with_the_marker() {
    let u = built();
    let ctx = EvalContext { name: "C".to_string(), universe: &u };
    let class = class_func(ValueArgs::new(vec![type_arg(mono("Int"))], vec![]), &ctx).unwrap();
    let marked = inheritable_func(ValueArgs::new(vec![class], vec![]), &ctx).unwrap();
    let impls = impls_of(&marked);
    assert!(matches!(&impls, Ty::Mono(n) if n == "InheritableType"));
}

#[test]
fn inheritable_func_rejects_non_classes() {
    let u = built();
    let ctx = EvalContext { name: "C".to_string(), universe: &u };
    let e = inheritable_func(ValueArgs::new(vec![ValueObj::Nat(7)], vec![]), &ctx).unwrap_err();
    assert_eq!(e.kind, ErrorKind::TypeError);
    let e2 = inheritable_func(ValueArgs::new(vec![], vec![]), &ctx).unwrap_err();
    assert_eq!(e2.kind, ErrorKind::KeyError);
    assert_eq!(e2.msg, "Class is not passed");
}

fn impls_of(v: &ValueObj) -> Ty {
    match v {
        ValueObj::Type(TypeObj::Generated(g)) => match g.impls.as_deref() {
            Some(TypeObj::Builtin(t)) => t.clone(),
            Some(TypeObj::Generated(g2)) => g2.t.clone(),
            None => panic!("an impl type was expected"),
        },
        _ => panic!("a generated type was expected"),
    }
}

#[test]
fn array_get_within_bounds_returns_the_element() {
    let u = built();
    let ctx = EvalContext { name: "Array".to_string(), universe: &u };
    let arr = ValueObj::Array(vec![ValueObj::Nat(10), ValueObj::Nat(20), ValueObj::Nat(30)]);
    let args = ValueArgs::new(vec![arr, ValueObj::Nat(2)], vec![]);
    let v = __array_getitem__(args, &ctx).unwrap();
    assert!(matches!(v, ValueObj::Nat(30)));
}

#[test]
fn array_get_out_of_bounds_reports_length_and_index() {
    let u = built();
    let ctx = EvalContext { name: "Array".to_string(), universe: &u };
    let arr = ValueObj::Array(vec![ValueObj::Nat(1), ValueObj::Nat(2), ValueObj::Nat(3)]);
    let args = ValueArgs::new(vec![arr, ValueObj::Nat(3)], vec![]);
    let e = __array_getitem__(args, &ctx).unwrap_err();
    assert_eq!(e.kind, ErrorKind::IndexError);
    assert_eq!(e.msg, "[1, 2, 3] has 3 elements, but accessed 3th element");
}

#[test]
fn dict_get_prefers_the_exact_key() {
    let u = built();
    let ctx = EvalContext { name: "Dict".to_string(), universe: &u };
    let dict = ValueObj::Dict(vec![
        (type_arg(mono("Int")), ValueObj::Str("by-int".to_string())),
        (type_arg(mono("Nat")), ValueObj::Str("by-nat".to_string())),
    ]);
    let args = ValueArgs::new(vec![dict, type_arg(mono("Nat"))], vec![]);
    let v = __dict_getitem__(args, &ctx).unwrap();
    assert!(matches!(v, ValueObj::Str(s) if s == "by-nat"));
}

#[test]
fn dict_get_falls_back_to_a_subtype_compatible_key() {
    let u = built();
    let ctx = EvalContext { name: "Dict".to_string(), universe: &u };
    // A dictionary keyed by Int answers a Nat query, since Nat <: Int.
    let dict = ValueObj::Dict(vec![
        (type_arg(mono("Int")), ValueObj::Str("num".to_string())),
    ]);
    let args = ValueArgs::new(vec![dict, type_arg(mono("Nat"))], vec![]);
    let v = __dict_getitem__(args, &ctx).unwrap();
    assert!(matches!(v, ValueObj::Str(s) if s == "num"));
}

#[test]
fn dict_get_fails_for_an_unrelated_key() {
    let u = built();
    let ctx = EvalContext { name: "Dict".to_string(), universe: &u };
    let dict = ValueObj::Dict(vec![
        (type_arg(mono("Int")), ValueObj::Str("num".to_string())),
    ]);
    let args = ValueArgs::new(vec![dict, type_arg(mono("Str"))], vec![]);
    let e = __dict_getitem__(args, &ctx).unwrap_err();
    assert_eq!(e.kind, ErrorKind::IndexError);
    assert_eq!(e.msg, "{Int: \"num\"} has no key Str");
}

#[test]
fn dict_get_also_matches_plain_values() {
    let u = built();
    let ctx = EvalContext { name: "Dict".to_string(), universe: &u };
    let dict = ValueObj::Dict(vec![
        (ValueObj::Str("a".to_string()), ValueObj::Nat(1)),
        (ValueObj::Str("b".to_string()), ValueObj::Nat(2)),
    ]);
    let args = ValueArgs::new(
        vec![dict, ValueObj::Str("b".to_string())],
        vec![],
    );
    let v = __dict_getitem__(args, &ctx).unwrap();
    assert!(matches!(v, ValueObj::Nat(2)));
}

fn range_value(start: u64, end: u64) -> ValueObj {
    ValueObj::DataClass {
        name: "Range".to_string(),
        fields: vec![
            ("start".to_string(), ValueObj::Nat(start)),
            ("end".to_string(), ValueObj::Nat(end)),
        ],
    }
}

#[test]
fn range_get_returns_start_plus_index_below_end() {
    let u = built();
    let ctx = EvalContext { name: "Range".to_string(), universe: &u };
    // Range{start: 2, end: 5}.get(index = 2) == 4
    let args = ValueArgs::new(vec![range_value(2, 5), ValueObj::Nat(2)], vec![]);
    let v = __range_getitem__(args, &ctx).unwrap();
    assert!(matches!(v, ValueObj::Nat(4)));
}

#[test]
fn range_get_fails_at_the_exclusive_end() {
    let u = built();
    let ctx = EvalContext { name: "Range".to_string(), universe: &u };
    // index 3 would be 5, which is not < end: the bound is exclusive.
    // Inclusive ranges are not yet distinguished; this test pins the
    // exclusive behavior down deliberately.
    let args = ValueArgs::new(vec![range_value(2, 5), ValueObj::Nat(3)], vec![]);
    let e = __range_getitem__(args, &ctx).unwrap_err();
    assert_eq!(e.kind, ErrorKind::IndexError);
    assert_eq!(e.msg, "Index out of range: 3");
}

#[test]
fn range_get_names_the_missing_bound_field() {
    let u = built();
    let ctx = EvalContext { name: "Range".to_string(), universe: &u };
    let no_end = ValueObj::DataClass {
        name: "Range".to_string(),
        fields: vec![("start".to_string(), ValueObj::Nat(2))],
    };
    let e = __range_getitem__(ValueArgs::new(vec![no_end, ValueObj::Nat(0)], vec![]), &ctx)
        .unwrap_err();
    assert_eq!(e.kind, ErrorKind::KeyError);
    assert_eq!(e.msg, "end is not passed");
}

#[test]
fn call_const_function_dispatches_the_catalogue() {
    let u = built();
    let ctx = EvalContext { name: "C".to_string(), universe: &u };
    let args = ValueArgs::new(vec![type_arg(mono("Int"))], vec![]);
    let v = call_const_function("class_func", args, &ctx).unwrap();
    assert!(matches!(v, ValueObj::Type(TypeObj::Generated(_))));
    let args2 = ValueArgs::new(
        vec![range_value(0, 3), ValueObj::Nat(1)],
        vec![],
    );
    let v2 = call_const_function("__range_getitem__", args2, &ctx).unwrap();
    assert!(matches!(v2, ValueObj::Nat(1)));
    let e = call_const_function("no_such", ValueArgs::new(vec![], vec![]), &ctx).unwrap_err();
    assert_eq!(e.kind, ErrorKind::KeyError);
    assert_eq!(e.msg, "no such const function: no_such");
}

#[test]
fn arguments_are_taken_left_to_right_then_by_name() {
    let mut args = ValueArgs::new(
        vec![ValueObj::Nat(1)],
        vec![("Index".to_string(), ValueObj::Nat(9))],
    );
    // The positional argument is taken first, whatever the name.
    let v = args.remove_left_or_key("Self").unwrap();
    assert!(matches!(v, ValueObj::Nat(1)));
    // Then the keyword argument under the name.
    let v2 = args.remove_left_or_key("Index").unwrap();
    assert!(matches!(v2, ValueObj::Nat(9)));
    // Nothing is left.
    assert!(args.remove_left_or_key("Index").is_none());
}
