//! Subtyping and hierarchy tests over the built universe.

use erg_kernel::ty::Pred;
use erg_kernel::ty::Ty;
use erg_kernel::ty::TyParam;
use erg_kernel::ty::and;
use erg_kernel::ty::array_t;
use erg_kernel::ty::mono;
use erg_kernel::ty::nat_tp;
use erg_kernel::ty::or;
use erg_kernel::ty::poly;
use erg_kernel::ty::refinement;
use erg_kernel::ty::tp_add;
use erg_kernel::ty::tp_eq;
use erg_kernel::ty::tp_sub;
use erg_kernel::ty::ty_eq;
use erg_kernel::ty::ty_tp;
use erg_kernel::ty::var_tp;
use erg_kernel::universe::TypeUniverse;

fn built() -> TypeUniverse {
    let mut u = TypeUniverse::new(false);
    u.init_builtin_classes();
    u
}

#[test]
fn universe_is_well_formed() {
    let u = built();
    assert!(u.check_well_formed());
    assert!(u.check_capabilities_well_shaped());
}

#[test]
fn reflexivity_on_registered_types() {
    let u = built();
    for name in ["Obj", "Int", "Nat", "Bool", "Str", "Float", "Never"] {
        let t = mono(name);
        assert!(u.is_subtype(&t, &t));
    }
    let arr = array_t(mono("Int"), nat_tp(3));
    assert!(u.is_subtype(&arr, &arr));
}

#[test]
fn transitivity_along_the_numeric_tower() {
    let u = built();
    assert!(u.is_subtype(&mono("Bool"), &mono("Nat")));
    assert!(u.is_subtype(&mono("Nat"), &mono("Int")));
    assert!(u.is_subtype(&mono("Bool"), &mono("Int")));
    assert!(u.is_subtype(&mono("Int"), &mono("Float")));
    assert!(u.is_subtype(&mono("Bool"), &mono("Float")));
    assert!(u.is_subtype(&mono("Bool"), &mono("Obj")));
    assert!(!u.is_subtype(&mono("Int"), &mono("Nat")));
    assert!(!u.is_subtype(&mono("Obj"), &mono("Int")));
}

#[test]
fn chain_from_bool_reaches_the_root_in_four_steps() {
    let u = built();
    // boolean -> natural -> integer -> float -> object
    let bool_idx = u.lookup_class("Bool").unwrap();
    assert_eq!(u.chain_depth_of(bool_idx), 4);
    let obj_idx = u.lookup_class("Obj").unwrap();
    assert_eq!(u.chain_depth_of(obj_idx), 0);
    let nat_idx = u.lookup_class("Nat").unwrap();
    assert_eq!(u.chain_depth_of(nat_idx), 3);
}

#[test]
fn marker_trait_propagates_to_subclasses() {
    let u = built();
    // Num is attached at Float; Int, Nat and Bool inherit it without
    // re-registration.
    assert!(u.is_subtype(&mono("Float"), &mono("Num")));
    assert!(u.is_subtype(&mono("Int"), &mono("Num")));
    assert!(u.is_subtype(&mono("Nat"), &mono("Num")));
    assert!(u.is_subtype(&mono("Bool"), &mono("Num")));
    assert!(!u.is_subtype(&mono("Str"), &mono("Num")));
    // Ord is attached at Str directly.
    assert!(u.is_subtype(&mono("Str"), &mono("Ord")));
}

#[test]
fn trait_subtyping_through_implemented_traits() {
    let u = built();
    // Float implements Add(Float) through a registered trait impl.
    let add_float = poly("Add", vec![ty_tp(mono("Float"))]);
    assert!(u.is_subtype(&mono("Float"), &add_float));
    let add_str = poly("Add", vec![ty_tp(mono("Str"))]);
    assert!(!u.is_subtype(&mono("Float"), &add_str));
}

#[test]
fn never_is_bottom() {
    let u = built();
    assert!(u.is_subtype(&Ty::Never, &mono("Obj")));
    assert!(u.is_subtype(&Ty::Never, &mono("Int")));
    assert!(!u.is_subtype(&mono("Int"), &Ty::Never));
}

#[test]
fn union_and_intersection_structure() {
    let u = built();
    let int_or_str = or(mono("Int"), mono("Str"));
    assert!(u.is_subtype(&mono("Int"), &int_or_str));
    assert!(u.is_subtype(&mono("Str"), &int_or_str));
    assert!(!u.is_subtype(&mono("Obj"), &int_or_str));
    let num_and_ord = and(mono("Num"), mono("Ord"));
    assert!(u.is_subtype(&mono("Float"), &num_and_ord));
    // Str carries Ord but not Num.
    assert!(!u.is_subtype(&mono("Str"), &num_and_ord));
}

#[test]
fn poly_subtyping_requires_equal_head_and_covariant_params() {
    let u = built();
    let arr_nat = array_t(mono("Nat"), nat_tp(3));
    let arr_int = array_t(mono("Int"), nat_tp(3));
    let arr_int_other_len = array_t(mono("Int"), nat_tp(4));
    assert!(u.is_subtype(&arr_nat, &arr_int));
    assert!(!u.is_subtype(&arr_int, &arr_nat));
    assert!(!u.is_subtype(&arr_nat, &arr_int_other_len));
    // A parametric class still reaches its nominal ancestors.
    assert!(u.is_subtype(&arr_nat, &mono("Obj")));
}

#[test]
fn transitivity_through_parametric_types() {
    let u = built();
    let arr_bool = array_t(mono("Bool"), nat_tp(3));
    let arr_nat = array_t(mono("Nat"), nat_tp(3));
    let arr_int = array_t(mono("Int"), nat_tp(3));
    assert!(u.is_subtype(&arr_bool, &arr_nat));
    assert!(u.is_subtype(&arr_nat, &arr_int));
    assert!(u.is_subtype(&arr_bool, &arr_int));
}

#[test]
fn erased_length_accepts_concrete_length() {
    let u = built();
    let concrete = array_t(mono("Int"), nat_tp(3));
    let erased = array_t(mono("Int"), TyParam::Erased(Box::new(mono("Nat"))));
    assert!(u.is_subtype(&concrete, &erased));
    assert!(!u.is_subtype(&erased, &concrete));
}

#[test]
fn refinement_subtyping_is_conjunction_superset() {
    let u = built();
    let le5 = Pred::Le("x".to_string(), TyParam::NatLit(5));
    let ge1 = Pred::Ge("x".to_string(), TyParam::NatLit(1));
    let narrow = refinement("x", mono("Nat"), vec![le5.clone(), ge1]);
    let wide = refinement("x", mono("Nat"), vec![le5]);
    let no_narrowing = refinement("x", mono("Nat"), vec![]);
    assert!(u.is_subtype(&narrow, &wide));
    assert!(!u.is_subtype(&wide, &narrow));
    // A refinement forgets to its base.
    assert!(u.is_subtype(&narrow, &mono("Nat")));
    assert!(u.is_subtype(&narrow, &mono("Int")));
    // An empty predicate set means no narrowing.
    assert!(u.is_subtype(&mono("Nat"), &no_narrowing));
    // The entailment is syntactic: a semantically wider bound with a
    // different shape is not recognized.
    let le9 = Pred::Le("x".to_string(), TyParam::NatLit(9));
    let wider = refinement("x", mono("Nat"), vec![le9]);
    assert!(!u.is_subtype(&narrow, &wider));
}

#[test]
fn refinement_renames_the_bound_variable() {
    let u = built();
    let narrow = refinement(
        "a",
        mono("Nat"),
        vec![Pred::Le("a".to_string(), TyParam::NatLit(5))],
    );
    let wide = refinement(
        "b",
        mono("Nat"),
        vec![Pred::Le("b".to_string(), TyParam::NatLit(5))],
    );
    assert!(u.is_subtype(&narrow, &wide));
}

#[test]
fn repeated_intersection_is_a_no_op_in_effect() {
    let u = built();
    let x = mono("Show");
    let m = mono("InheritableType");
    let flat = and(x.clone(), m.clone());
    let nested = and(flat.clone(), m.clone());
    for cand in [mono("Never"), flat.clone(), nested.clone()] {
        let below_nested = u.is_subtype(&cand, &nested);
        let below_flat = u.is_subtype(&cand, &flat) && u.is_subtype(&cand, &m);
        assert_eq!(below_nested, below_flat);
    }
}

#[test]
fn name_lookup_and_aliases_are_published() {
    let u = built();
    assert!(u.lookup_class("Int").is_some());
    assert!(u.lookup_class("NoSuchClass").is_none());
    // The namespace holds canonical names and aliases.
    let mut saw_object_alias = false;
    let mut saw_int_alias = false;
    for (name, _) in &u.namespace {
        if name == "object" {
            saw_object_alias = true;
        }
        if name == "int" {
            saw_int_alias = true;
        }
    }
    assert!(saw_object_alias);
    assert!(saw_int_alias);
}

#[test]
fn py_compatible_mode_changes_the_boolean_alias() {
    let mut u = TypeUniverse::new(true);
    u.init_builtin_classes();
    let mut saw_lowercase_bool = false;
    for (name, _) in &u.namespace {
        if name == "bool" {
            saw_lowercase_bool = true;
        }
    }
    assert!(saw_lowercase_bool);
    let mut u2 = TypeUniverse::new(false);
    u2.init_builtin_classes();
    let mut saw_capital_bool = false;
    for (name, _) in &u2.namespace {
        if name == "Bool" {
            saw_capital_bool = true;
        }
    }
    assert!(saw_capital_bool);
}

#[test]
fn method_resolution_walks_own_traits_then_superclass() {
    let u = built();
    // __eq__ on Bool comes from its own Eq trait impl.
    let m = u.resolve_method(&mono("Bool"), &"__eq__".to_string()).unwrap();
    assert_eq!(m.name, "__eq__");
    // abs is declared on Int and inherited by Bool through the chain.
    let m2 = u.resolve_method(&mono("Bool"), &"abs".to_string()).unwrap();
    assert_eq!(m2.name, "abs");
    assert_eq!(m2.py_name.as_deref(), Some("__abs__"));
    // An unknown name resolves to nothing.
    assert!(u.resolve_method(&mono("Bool"), &"no_such_method".to_string()).is_none());
    // concat on Array.
    let arr = array_t(mono("Int"), nat_tp(3));
    let m3 = u.resolve_method(&arr, &"concat".to_string()).unwrap();
    assert_eq!(m3.name, "concat");
}

#[test]
fn concat_push_pop_lengths_are_const_generic() {
    let u = built();
    let arr = array_t(mono("T"), var_tp("N"));
    // concat: (self: Array(T, N), rhs: Array(T, M)) -> Array(T, N + M)
    let concat = u.resolve_method(&arr, &"concat".to_string()).unwrap();
    let ret = return_type_of(&concat.sig);
    let expected = array_t(
        mono("T"),
        TyParam::Add(
            Box::new(TyParam::Var("N".to_string())),
            Box::new(TyParam::Var("M".to_string())),
        ),
    );
    assert!(ty_eq(&ret, &expected));
    // push: -> Array(T, N + 1)
    let push = u.resolve_method(&arr, &"push".to_string()).unwrap();
    let ret = return_type_of(&push.sig);
    let expected = array_t(
        mono("T"),
        TyParam::Add(
            Box::new(TyParam::Var("N".to_string())),
            Box::new(TyParam::NatLit(1)),
        ),
    );
    assert!(ty_eq(&ret, &expected));
    // pop! on the mutable array: the receiver goes from [T; N]! to
    // [T; N - 1]! and the element comes back.
    let arr_mut = poly(
        "Array!",
        vec![ty_tp(mono("T")), TyParam::Var("N".to_string())],
    );
    let pop = u.resolve_method(&arr_mut, &"pop!".to_string()).unwrap();
    let recv = receiver_type_of(&pop.sig);
    let expected_after = poly(
        "Array!",
        vec![
            ty_tp(mono("T")),
            TyParam::Sub(
                Box::new(TyParam::Var("N".to_string())),
                Box::new(TyParam::NatLit(1)),
            ),
        ],
    );
    match &recv {
        Ty::Poly(h, ps) => {
            assert_eq!(h, "RefMut");
            match (&ps[0], &ps[1]) {
                (TyParam::TyVal(_before), TyParam::TyVal(after)) => {
                    assert!(ty_eq(after, &expected_after));
                },
                _ => panic!("a mutating receiver was expected"),
            }
        },
        _ => panic!("a mutating receiver was expected"),
    }
}

/// Digs the receiver type out of a (possibly quantified) subroutine
/// type: the first parameter of the encoding.
fn receiver_type_of(sig: &Ty) -> Ty {
    let body = match sig {
        Ty::Quantified(_, body) => &**body,
        other => other,
    };
    match body {
        Ty::Poly(_, params) => match params.first().unwrap() {
            TyParam::TyVal(t) => (**t).clone(),
            _ => panic!("subroutine type should start with its receiver"),
        },
        _ => panic!("expected a subroutine type"),
    }
}

/// Digs the return type out of a (possibly quantified) subroutine
/// type: the last parameter of the encoding.
fn return_type_of(sig: &Ty) -> Ty {
    let body = match sig {
        Ty::Quantified(_, body) => &**body,
        other => other,
    };
    match body {
        Ty::Poly(_, params) => match params.last().unwrap() {
            TyParam::TyVal(t) => (**t).clone(),
            _ => panic!("subroutine type should end in its return type"),
        },
        _ => panic!("expected a subroutine type"),
    }
}

#[test]
fn numeric_and_symbolic_length_arithmetic() {
    let five = tp_add(TyParam::NatLit(2), TyParam::NatLit(3));
    assert!(tp_eq(&five, &TyParam::NatLit(5)));
    let one = tp_sub(TyParam::NatLit(3), TyParam::NatLit(2));
    assert!(tp_eq(&one, &TyParam::NatLit(1)));
    // Symbolic when an operand is a quantified variable.
    let sym = tp_add(TyParam::Var("N".to_string()), TyParam::NatLit(1));
    match sym {
        TyParam::Add(_, _) => {},
        _ => panic!("expected a symbolic sum"),
    }
    // Subtraction below zero stays symbolic rather than wrapping.
    let neg = tp_sub(TyParam::NatLit(1), TyParam::NatLit(2));
    match neg {
        TyParam::Sub(_, _) => {},
        _ => panic!("expected a symbolic difference"),
    }
}
