//! The laws the subtype relation obeys over any well-formed
//! universe, each stated and proved against the same `subtype_v`
//! relation the executable engine is verified to implement.

use vstd::prelude::*;

use crate::subtype::head_subtype;
use crate::subtype::param_class;
use crate::subtype::param_le;
use crate::subtype::params_subtype;
use crate::subtype::subtype_v;
use crate::subtype::tpv_seq_size;
use crate::subtype::tpv_size;
use crate::subtype::tv_size;
use crate::ty::TpView;
use crate::ty::TyView;
use crate::universe::ClassEntry;
use crate::universe::TypeUniverse;
use crate::universe::chain_depth;
use crate::universe::has_ancestor_name;
use crate::universe::has_capability;
use crate::universe::impl_has;
use crate::universe::lemma_chain_depth_bound;
use crate::universe::lemma_lookup_name;
use crate::universe::lookup_name;
use crate::universe::cap_shape_ok;
use crate::universe::caps_ok;
use crate::universe::marker_has;

verus! {

/// Reflexivity: every type is a subtype of itself, over any
/// universe; structural equality short-circuits the relation.
pub proof fn lemma_subtype_reflexive(cs: Seq<ClassEntry>, t: TyView)
    ensures
        subtype_v(cs, t, t),
{
}

/// Chain termination: under the arena discipline every superclass
/// edge strictly descends, so the chain from any entry reaches its
/// root in a bounded number of steps — at most the entry's own
/// index.
pub proof fn lemma_chain_terminates(u: TypeUniverse, i: int)
    requires
        u.wf_basic(),
        0 <= i < u.classes@.len(),
    ensures
        chain_depth(u.classes@, i) <= i,
{
    lemma_chain_depth_bound(u.classes@, i);
}

/// Marker-trait propagation over the capability set: a capability of
/// the superclass is a capability of the subclass without
/// re-registration.
pub proof fn lemma_capability_inherited(u: TypeUniverse, i: int, t: TyView)
    requires
        u.wf_basic(),
        0 <= i < u.classes@.len(),
        u.classes@[i].superclass matches Some(j) && has_capability(u.classes@, j as int, t),
    ensures
        has_capability(u.classes@, i, t),
{
}

/// Marker-trait propagation at the query surface: a subclass of a
/// class carrying a marker trait is itself reported as a subtype of
/// that trait, for nominal or parametric trait targets.
pub proof fn lemma_marker_propagates(u: TypeUniverse, i: int, t: TyView)
    requires
        u.wf(),
        0 <= i < u.classes@.len(),
        u.classes@[i].superclass matches Some(j) && has_capability(u.classes@, j as int, t),
        t is Mono || t is Poly,
    ensures
        subtype_v(u.classes@, TyView::Mono(u.classes@[i].name@), t),
{
    lemma_capability_inherited(u, i, t);
    let n = u.classes@[i].name@;
    lemma_lookup_name(u.classes@, n);
    match lookup_name(u.classes@, n) {
        Some(k) => {
            if k < i {
                assert(u.classes@[k].name@ != u.classes@[i].name@);
            }
            if i < k {
                assert(u.classes@[i].name@ != u.classes@[k].name@);
            }
            assert(k == i);
        },
        None => {
            assert(u.classes@[i].name@ != n);
        },
    }
}

/// A plain type: built from nominal heads, unions, intersections and
/// the bottom type, without refinements or quantified types, with
/// parameters over literals, variables, arithmetic, plain carried
/// types and plain erasures.
pub open spec fn plain(t: TyView) -> bool
    decreases t,
{
    match t {
        TyView::Mono(_) => true,
        TyView::Never => true,
        TyView::And(l, r) => plain(*l) && plain(*r),
        TyView::Or(l, r) => plain(*l) && plain(*r),
        TyView::Poly(_, ps) => plain_params(ps),
        TyView::Refinement(_, _, _) => false,
        TyView::Quantified(_, _) => false,
    }
}

/// Plainness of a parameter sequence.
pub open spec fn plain_params(ps: Seq<TpView>) -> bool
    decreases ps,
{
    if ps.len() == 0 {
        true
    } else {
        plain_params(ps.drop_last()) && plain_param(ps.last())
    }
}

/// Plainness of one parameter.
pub open spec fn plain_param(p: TpView) -> bool
    decreases p,
{
    match p {
        TpView::NatLit(_) => true,
        TpView::StrLit(_) => true,
        TpView::BoolLit(_) => true,
        TpView::Var(_) => true,
        TpView::TyVal(t) => plain(*t),
        TpView::Erased(t) => plain(*t),
        TpView::Add(x, y) => plain_param(*x) && plain_param(*y),
        TpView::Sub(x, y) => plain_param(*x) && plain_param(*y),
        TpView::EnumSet(vs) => plain_params(vs),
    }
}

/// `plain_params` is pointwise plainness.
pub proof fn lemma_plain_params(ps: Seq<TpView>)
    requires
        plain_params(ps),
    ensures
        forall|i: int| 0 <= i < ps.len() ==> plain_param(#[trigger] ps[i]),
    decreases ps.len(),
{
    if ps.len() > 0 {
        lemma_plain_params(ps.drop_last());
        assert(forall|i: int| 0 <= i < ps.len() - 1 ==> ps[i] == ps.drop_last()[i]);
        assert(ps.last() == ps[ps.len() - 1]);
    }
}

/// The view does not occur as an attached capability of any entry.
pub open spec fn attached_nowhere(cs: Seq<ClassEntry>, v: TyView) -> bool {
    forall|i: int|
        0 <= i < cs.len() ==> !marker_has((#[trigger] cs[i]).markers@, v) && !impl_has(
            cs[i].trait_impls@,
            v,
        )
}

/// A type fit to stand in the middle of a transitivity chain: plain,
/// and none of its parametric heads occur as attached capabilities
/// (for those the first-match capability check is not transitive).
pub open spec fn mid_ok(cs: Seq<ClassEntry>, t: TyView) -> bool
    decreases t,
{
    match t {
        TyView::Mono(_) => true,
        TyView::Never => true,
        TyView::And(l, r) => mid_ok(cs, *l) && mid_ok(cs, *r),
        TyView::Or(l, r) => mid_ok(cs, *l) && mid_ok(cs, *r),
        TyView::Poly(_, ps) => attached_nowhere(cs, t) && mid_params(cs, ps),
        TyView::Refinement(_, _, _) => false,
        TyView::Quantified(_, _) => false,
    }
}

/// Middle-fitness of a parameter sequence.
pub open spec fn mid_params(cs: Seq<ClassEntry>, ps: Seq<TpView>) -> bool
    decreases ps,
{
    if ps.len() == 0 {
        true
    } else {
        mid_params(cs, ps.drop_last()) && mid_param(cs, ps.last())
    }
}

/// Middle-fitness of one parameter.
pub open spec fn mid_param(cs: Seq<ClassEntry>, p: TpView) -> bool
    decreases p,
{
    match p {
        TpView::NatLit(_) => true,
        TpView::StrLit(_) => true,
        TpView::BoolLit(_) => true,
        TpView::Var(_) => true,
        TpView::TyVal(t) => mid_ok(cs, *t),
        TpView::Erased(t) => mid_ok(cs, *t),
        TpView::Add(x, y) => mid_param(cs, *x) && mid_param(cs, *y),
        TpView::Sub(x, y) => mid_param(cs, *x) && mid_param(cs, *y),
        TpView::EnumSet(vs) => mid_params(cs, vs),
    }
}

/// `mid_params` is pointwise.
pub proof fn lemma_mid_params(cs: Seq<ClassEntry>, ps: Seq<TpView>)
    requires
        mid_params(cs, ps),
    ensures
        forall|i: int| 0 <= i < ps.len() ==> mid_param(cs, #[trigger] ps[i]),
    decreases ps.len(),
{
    if ps.len() > 0 {
        lemma_mid_params(cs, ps.drop_last());
        assert(forall|i: int| 0 <= i < ps.len() - 1 ==> ps[i] == ps.drop_last()[i]);
        assert(ps.last() == ps[ps.len() - 1]);
    }
}

/// Every middle-fit type is plain.
pub proof fn lemma_mid_plain(cs: Seq<ClassEntry>, t: TyView)
    requires
        mid_ok(cs, t),
    ensures
        plain(t),
    decreases t,
{
    match t {
        TyView::And(l, r) => {
            lemma_mid_plain(cs, *l);
            lemma_mid_plain(cs, *r);
        },
        TyView::Or(l, r) => {
            lemma_mid_plain(cs, *l);
            lemma_mid_plain(cs, *r);
        },
        TyView::Poly(_, ps) => {
            lemma_mid_plain_params(cs, ps);
        },
        _ => {},
    }
}

/// Every middle-fit parameter sequence is plain.
pub proof fn lemma_mid_plain_params(cs: Seq<ClassEntry>, ps: Seq<TpView>)
    requires
        mid_params(cs, ps),
    ensures
        plain_params(ps),
    decreases ps,
{
    if ps.len() > 0 {
        lemma_mid_plain_params(cs, ps.drop_last());
        lemma_mid_plain_param(cs, ps.last());
    }
}

/// Every middle-fit parameter is plain.
pub proof fn lemma_mid_plain_param(cs: Seq<ClassEntry>, p: TpView)
    requires
        mid_param(cs, p),
    ensures
        plain_param(p),
    decreases p,
{
    match p {
        TpView::TyVal(t) => lemma_mid_plain(cs, *t),
        TpView::Erased(t) => lemma_mid_plain(cs, *t),
        TpView::Add(x, y) => {
            lemma_mid_plain_param(cs, *x);
            lemma_mid_plain_param(cs, *y);
        },
        TpView::Sub(x, y) => {
            lemma_mid_plain_param(cs, *x);
            lemma_mid_plain_param(cs, *y);
        },
        TpView::EnumSet(vs) => lemma_mid_plain_params(cs, vs),
        _ => {},
    }
}

/// Every carried capability is well shaped, under `caps_ok`.
pub proof fn lemma_capability_shape(cs: Seq<ClassEntry>, i: int, v: TyView)
    requires
        caps_ok(cs),
        has_capability(cs, i, v),
    ensures
        cap_shape_ok(cs, v),
        !attached_nowhere(cs, v),
    decreases i,
{
    if 0 <= i < cs.len() {
        if marker_has(cs[i].markers@, v) {
            let k = choose|k: int| 0 <= k < cs[i].markers@.len() && cs[i].markers@[k].deep() == v;
            assert(cap_shape_ok(cs, cs[i].markers@[k].deep()));
        } else if impl_has(cs[i].trait_impls@, v) {
            let k = choose|k: int|
                0 <= k < cs[i].trait_impls@.len() && cs[i].trait_impls@[k].table.impl_trait is Some
                    && cs[i].trait_impls@[k].table.impl_trait->0.deep() == v;
            assert(cap_shape_ok(cs, cs[i].trait_impls@[k].table.impl_trait->0.deep()));
        } else {
            match cs[i].superclass {
                Some(j) => {
                    lemma_capability_shape(cs, j as int, v);
                },
                None => {},
            }
        }
    }
}

/// A named ancestor's own ancestors and capabilities are the
/// entry's, by chain inclusion; needs unique names so that the
/// looked-up entry is the ancestor itself.
pub proof fn lemma_ancestor_absorbs(u: TypeUniverse, i: int, m: Seq<char>, j: int)
    requires
        u.wf(),
        0 <= i < u.classes@.len(),
        has_ancestor_name(u.classes@, i, m),
        lookup_name(u.classes@, m) == Some(j),
    ensures
        forall|z: Seq<char>|
            has_ancestor_name(u.classes@, j, z) ==> #[trigger] has_ancestor_name(
                u.classes@,
                i,
                z,
            ),
        forall|v: TyView|
            has_capability(u.classes@, j, v) ==> #[trigger] has_capability(u.classes@, i, v),
    decreases i,
{
    let cs = u.classes@;
    lemma_lookup_name(cs, m);
    match cs[i].superclass {
        Some(k) => {
            if 0 <= k < i {
                if cs[k as int].name@ == m {
                    if k as int != j {
                        if (k as int) < j {
                            assert(cs[k as int].name@ != cs[j].name@);
                        } else {
                            assert(cs[j].name@ != cs[k as int].name@);
                        }
                        assert(false);
                    }
                    assert forall|z: Seq<char>|
                        has_ancestor_name(cs, j, z) implies #[trigger] has_ancestor_name(
                        cs,
                        i,
                        z,
                    ) by {
                        assert(has_ancestor_name(cs, k as int, z));
                    }
                    assert forall|v: TyView|
                        has_capability(cs, j, v) implies #[trigger] has_capability(cs, i, v) by {
                        assert(has_capability(cs, k as int, v));
                    }
                } else {
                    lemma_ancestor_absorbs(u, k as int, m, j);
                    assert forall|z: Seq<char>|
                        has_ancestor_name(cs, j, z) implies #[trigger] has_ancestor_name(
                        cs,
                        i,
                        z,
                    ) by {
                        assert(has_ancestor_name(cs, k as int, z));
                    }
                    assert forall|v: TyView|
                        has_capability(cs, j, v) implies #[trigger] has_capability(cs, i, v) by {
                        assert(has_capability(cs, k as int, v));
                    }
                }
            }
        },
        None => {},
    }
}

/// An intersection tree: intersections over leaves that are neither
/// unions nor refinements. The impl slot built by repeated
/// `inheritable` rewrites has this shape — a class's capability
/// intersected with nominal marker traits.
pub open spec fn and_tree(t: TyView) -> bool
    decreases t,
{
    match t {
        TyView::And(l, r) => and_tree(*l) && and_tree(*r),
        TyView::Or(_, _) => false,
        TyView::Refinement(_, _, _) => false,
        _ => true,
    }
}

/// Intersection introduction on the candidate side: an intersection
/// with one operand below an intersection-tree target is below that
/// target.
pub proof fn lemma_and_weaken(cs: Seq<ClassEntry>, l: TyView, r: TyView, c: TyView)
    requires
        and_tree(c),
        subtype_v(cs, l, c) || subtype_v(cs, r, c),
    ensures
        subtype_v(cs, TyView::And(Box::new(l), Box::new(r)), c),
    decreases tv_size(c), tv_size(TyView::And(Box::new(l), Box::new(r))),
{
    let a = TyView::And(Box::new(l), Box::new(r));
    if a == c {
    } else {
        match c {
            TyView::And(c1, c2) => {
                if subtype_v(cs, l, c) {
                    lemma_and_target_split(cs, l, *c1, *c2);
                    lemma_and_weaken(cs, l, r, *c1);
                    lemma_and_weaken(cs, l, r, *c2);
                } else {
                    lemma_and_target_split(cs, r, *c1, *c2);
                    lemma_and_weaken(cs, l, r, *c1);
                    lemma_and_weaken(cs, l, r, *c2);
                }
            },
            _ => {},
        }
    }
}

/// Intersection elimination on the target side: below an
/// intersection-tree intersection means below each part.
pub proof fn lemma_and_target_split(cs: Seq<ClassEntry>, x: TyView, c1: TyView, c2: TyView)
    requires
        and_tree(c1),
        and_tree(c2),
        subtype_v(cs, x, TyView::And(Box::new(c1), Box::new(c2))),
    ensures
        subtype_v(cs, x, c1),
        subtype_v(cs, x, c2),
    decreases tv_size(TyView::And(Box::new(c1), Box::new(c2))), tv_size(x),
{
    let c = TyView::And(Box::new(c1), Box::new(c2));
    if x == c {
        lemma_subtype_reflexive(cs, c1);
        lemma_subtype_reflexive(cs, c2);
        lemma_and_weaken(cs, c1, c2, c1);
        lemma_and_weaken(cs, c1, c2, c2);
    } else {
        match x {
            TyView::Never => {},
            TyView::Or(o1, o2) => {
                lemma_and_target_split(cs, *o1, c1, c2);
                lemma_and_target_split(cs, *o2, c1, c2);
            },
            _ => {},
        }
    }
}

/// Idempotence of repeated intersection, restricted to
/// intersection-tree operands: intersecting the same marker in twice
/// is a no-op for conformance queries — a candidate is below the
/// nested intersection exactly when it is below the flat one and the
/// marker, even though the representation nests.
pub proof fn lemma_and_idempotent(cs: Seq<ClassEntry>, x: TyView, m: TyView, a: TyView)
    requires
        and_tree(x),
        and_tree(m),
    ensures
        subtype_v(
            cs,
            a,
            TyView::And(Box::new(TyView::And(Box::new(x), Box::new(m))), Box::new(m)),
        ) == (subtype_v(cs, a, TyView::And(Box::new(x), Box::new(m))) && subtype_v(cs, a, m)),
    decreases tv_size(a),
{
    let flat = TyView::And(Box::new(x), Box::new(m));
    let nested = TyView::And(Box::new(flat), Box::new(m));
    if a == nested {
        lemma_subtype_reflexive(cs, flat);
        lemma_and_weaken(cs, flat, m, flat);
        lemma_subtype_reflexive(cs, m);
        lemma_and_weaken(cs, flat, m, m);
    } else {
        match a {
            TyView::Never => {},
            TyView::Or(o1, o2) => {
                lemma_and_idempotent(cs, x, m, *o1);
                lemma_and_idempotent(cs, x, m, *o2);
                if a == flat {
                    assert(false);
                }
            },
            _ => {
                if a == flat {
                    lemma_subtype_reflexive(cs, x);
                    lemma_and_weaken(cs, x, m, x);
                    lemma_subtype_reflexive(cs, m);
                    lemma_and_weaken(cs, x, m, m);
                }
            },
        }
    }
}


/// A type below the bottom type is effectively bottom: it is below
/// everything plain.
pub proof fn lemma_below_never(u: TypeUniverse, x: TyView, c: TyView)
    requires
        caps_ok(u.classes@),
        plain(x),
        plain(c),
        subtype_v(u.classes@, x, TyView::Never),
    ensures
        subtype_v(u.classes@, x, c),
    decreases tv_size(x) + tv_size(c),
{
    let cs = u.classes@;
    if x == c {
    } else if x is Never {
    } else {
        match x {
            TyView::Or(x1, x2) => {
                lemma_below_never(u, *x1, c);
                lemma_below_never(u, *x2, c);
            },
            TyView::And(x1, x2) => {
                match c {
                    TyView::And(c1, c2) => {
                        lemma_below_never(u, x, *c1);
                        lemma_below_never(u, x, *c2);
                    },
                    TyView::Or(c1, c2) => {
                        lemma_below_never(u, x, *c1);
                    },
                    _ => {
                        if subtype_v(cs, *x1, TyView::Never) {
                            lemma_below_never(u, *x1, c);
                        } else {
                            lemma_below_never(u, *x2, c);
                        }
                    },
                }
            },
            TyView::Mono(n) => {
                match lookup_name(cs, n) {
                    Some(i) => {
                        if has_capability(cs, i, TyView::Never) {
                            lemma_capability_shape(cs, i, TyView::Never);
                        }
                        assert(false);
                    },
                    None => {
                        assert(false);
                    },
                }
            },
            TyView::Poly(n, _) => {
                match lookup_name(cs, n) {
                    Some(i) => {
                        if has_capability(cs, i, TyView::Never) {
                            lemma_capability_shape(cs, i, TyView::Never);
                        }
                        assert(false);
                    },
                    None => {
                        assert(false);
                    },
                }
            },
            _ => {
                assert(false);
            },
        }
    }
}

/// Transitivity: `A <: B` and `B <: C` give `A <: C`, for plain
/// types (no refinements or quantified types) over a well-formed
/// universe whose capabilities are nominal or parametric trait types
/// with unregistered heads, and whose middle term's parametric parts
/// are not themselves attached capabilities. Outside this fragment
/// the conservative first-match engine has genuine counterexamples:
/// a registered class is below its own attached `Add(Float)`, which
/// is covariantly below `Add(Obj)`, yet the class carries no
/// `Add(Obj)` capability.
#[verifier::rlimit(100)]
pub proof fn lemma_subtype_transitive(u: TypeUniverse, a: TyView, b: TyView, c: TyView)
    requires
        u.wf(),
        caps_ok(u.classes@),
        plain(a),
        mid_ok(u.classes@, b),
        plain(c),
        subtype_v(u.classes@, a, b),
        subtype_v(u.classes@, b, c),
    ensures
        subtype_v(u.classes@, a, c),
    decreases tv_size(a) + tv_size(b) + tv_size(c), 1int,
{
    let cs = u.classes@;
    if a == b {
    } else if b == c {
    } else if a == c {
    } else if a is Never {
    } else {
        match a {
            TyView::Or(a1, a2) => {
                lemma_subtype_transitive(u, *a1, b, c);
                lemma_subtype_transitive(u, *a2, b, c);
            },
            _ => {
                match b {
                    TyView::Or(b1, b2) => {
                        if subtype_v(cs, a, *b1) {
                            lemma_subtype_transitive(u, a, *b1, c);
                        } else {
                            lemma_subtype_transitive(u, a, *b2, c);
                        }
                    },
                    TyView::Never => {
                        lemma_mid_plain(cs, b);
                        lemma_below_never(u, a, c);
                    },
                    _ => {
                        match c {
                            TyView::And(c1, c2) => {
                                lemma_subtype_transitive(u, a, b, *c1);
                                lemma_subtype_transitive(u, a, b, *c2);
                            },
                            TyView::Or(c1, c2) => {
                                if subtype_v(cs, b, *c1) {
                                    lemma_subtype_transitive(u, a, b, *c1);
                                } else {
                                    lemma_subtype_transitive(u, a, b, *c2);
                                }
                            },
                            _ => {
                                lemma_trans_atomic(u, a, b, c);
                            },
                        }
                    },
                }
            },
        }
    }
}

/// The atomic-target cases of transitivity: the middle is an
/// intersection or nominal/parametric, the target is nominal,
/// parametric or bottom.
#[verifier::rlimit(100)]
proof fn lemma_trans_atomic(u: TypeUniverse, a: TyView, b: TyView, c: TyView)
    requires
        u.wf(),
        caps_ok(u.classes@),
        plain(a),
        mid_ok(u.classes@, b),
        plain(c),
        subtype_v(u.classes@, a, b),
        subtype_v(u.classes@, b, c),
        a != b,
        b != c,
        a != c,
        !(a is Never),
        !(a is Or),
        !(b is Or),
        !(b is Never),
        !(c is And),
        !(c is Or),
        c is Mono || c is Poly || c is Never,
    ensures
        subtype_v(u.classes@, a, c),
    decreases tv_size(a) + tv_size(b) + tv_size(c), 0int,
{
    let cs = u.classes@;
    match b {
        TyView::And(b1, b2) => {
            // a is below both operands; b is below c through one.
            assert(subtype_v(cs, a, *b1) && subtype_v(cs, a, *b2));
            assert(subtype_v(cs, *b1, c) || subtype_v(cs, *b2, c));
            if subtype_v(cs, *b1, c) {
                lemma_subtype_transitive(u, a, *b1, c);
            } else {
                lemma_subtype_transitive(u, a, *b2, c);
            }
        },
        TyView::Mono(m) => {
            // head_subtype(m, c) holds; a reaches b nominally or per
            // capability, and a nominal ancestor named m absorbs the
            // looked-up entry's relations.
            match lookup_name(cs, m) {
                Some(jm) => {
                    match a {
                        TyView::And(a1, a2) => {
                            if subtype_v(cs, *a1, b) {
                                lemma_subtype_transitive(u, *a1, b, c);
                            } else {
                                lemma_subtype_transitive(u, *a2, b, c);
                            }
                        },
                        TyView::Mono(n) => {
                            lemma_nominal_step(u, n, m, jm, c);
                        },
                        TyView::Poly(n, ps) => {
                            lemma_nominal_step(u, n, m, jm, c);
                            match c {
                                TyView::Poly(h2, _) => {
                                    if h2 == n {
                                        // c would then be a capability of
                                        // m's entry with a registered head,
                                        // which the capability shape
                                        // condition excludes.
                                        assert(has_capability(cs, jm, c));
                                        lemma_capability_shape(cs, jm, c);
                                        lemma_lookup_name(cs, n);
                                        assert(false);
                                    }
                                },
                                _ => {},
                            }
                        },
                        _ => {
                            assert(false);
                        },
                    }
                },
                None => {
                    assert(false);
                },
            }
        },
        TyView::Poly(h, qs) => {
            match a {
                TyView::And(a1, a2) => {
                    if subtype_v(cs, *a1, b) {
                        lemma_subtype_transitive(u, *a1, b, c);
                    } else {
                        lemma_subtype_transitive(u, *a2, b, c);
                    }
                },
                TyView::Mono(n) => {
                    // a could only reach a parametric b per capability,
                    // which the middle condition excludes.
                    match lookup_name(cs, n) {
                        Some(i) => {
                            lemma_capability_shape(cs, i, b);
                            assert(false);
                        },
                        None => {
                            assert(false);
                        },
                    }
                },
                TyView::Poly(n, ps) => {
                    if n == h {
                        // Same head: parameters compare pairwise.
                        match c {
                            TyView::Poly(h2, rs) => {
                                if h == h2 {
                                    lemma_params_trans(u, ps, qs, rs);
                                } else {
                                    // b reaches c through its head's entry;
                                    // a shares that head.
                                    assert(subtype_v(cs, a, c)) by {
                                        assert(head_subtype(cs, h, c));
                                    }
                                }
                            },
                            TyView::Mono(z) => {
                                assert(head_subtype(cs, h, c));
                            },
                            _ => {
                                // c is Never: no capability is bottom.
                                match lookup_name(cs, h) {
                                    Some(ih) => {
                                        if has_capability(cs, ih, c) {
                                            lemma_capability_shape(cs, ih, c);
                                        }
                                        assert(false);
                                    },
                                    None => {
                                        assert(false);
                                    },
                                }
                            },
                        }
                    } else {
                        match lookup_name(cs, n) {
                            Some(i) => {
                                lemma_capability_shape(cs, i, b);
                                assert(false);
                            },
                            None => {
                                assert(false);
                            },
                        }
                    }
                },
                _ => {
                    assert(false);
                },
            }
        },
        _ => {
            assert(false);
        },
    }
}

/// A nominal candidate whose chain reaches `m` absorbs everything
/// `m`'s entry is below: ancestors and capabilities alike.
proof fn lemma_nominal_step(u: TypeUniverse, n: Seq<char>, m: Seq<char>, jm: int, c: TyView)
    requires
        u.wf(),
        caps_ok(u.classes@),
        lookup_name(u.classes@, m) == Some(jm),
        head_subtype(u.classes@, n, TyView::Mono(m)),
        head_subtype(u.classes@, m, c),
        TyView::Mono(m) != c,
    ensures
        head_subtype(u.classes@, n, c),
{
    let cs = u.classes@;
    lemma_lookup_name(cs, m);
    match lookup_name(cs, n) {
        Some(i) => {
            if has_capability(cs, i, TyView::Mono(m)) {
                lemma_capability_shape(cs, i, TyView::Mono(m));
                assert(false);
            }
            assert(has_ancestor_name(cs, i, m));
            lemma_ancestor_absorbs(u, i, m, jm);
        },
        None => {
            assert(false);
        },
    }
}

/// Pairwise transitivity of parameter sequences.
proof fn lemma_params_trans(u: TypeUniverse, ps: Seq<TpView>, qs: Seq<TpView>, rs: Seq<TpView>)
    requires
        u.wf(),
        caps_ok(u.classes@),
        plain_params(ps),
        mid_params(u.classes@, qs),
        plain_params(rs),
        params_subtype(u.classes@, ps, qs),
        params_subtype(u.classes@, qs, rs),
    ensures
        params_subtype(u.classes@, ps, rs),
    decreases tpv_seq_size(ps) + tpv_seq_size(qs) + tpv_seq_size(rs), 0int,
{
    let cs = u.classes@;
    crate::subtype::lemma_params_subtype_char(cs, ps, qs);
    crate::subtype::lemma_params_subtype_char(cs, qs, rs);
    crate::subtype::lemma_params_subtype_char(cs, ps, rs);
    lemma_plain_params(ps);
    lemma_mid_params(cs, qs);
    lemma_plain_params(rs);
    assert forall|i: int| 0 <= i < ps.len() implies param_le(cs, #[trigger] ps[i], rs[i]) by {
        crate::subtype::lemma_tpv_seq_size_ge_elem(ps, i);
        crate::subtype::lemma_tpv_seq_size_ge_elem(qs, i);
        crate::subtype::lemma_tpv_seq_size_ge_elem(rs, i);
        lemma_param_le_trans(u, ps[i], qs[i], rs[i]);
    }
}

/// The declared capability type of a constructed descriptor's impl
/// slot, if one is set.
pub open spec fn impl_type_of(g: crate::value::GenView) -> Option<TyView> {
    match g.impls {
        Option::Some(b) => match *b {
            crate::value::TypeObjView::Builtin(t) => Option::Some(t),
            crate::value::TypeObjView::Generated(g2) => Option::Some(g2.t),
        },
        Option::None => Option::None,
    }
}

/// Intersecting the same nominal marker twice is a no-op in effect.
pub proof fn lemma_and_self_idempotent(cs: Seq<ClassEntry>, m: TyView, a: TyView)
    requires
        m is Mono,
    ensures
        subtype_v(cs, a, TyView::And(Box::new(m), Box::new(m))) == subtype_v(cs, a, m),
    decreases tv_size(a),
{
    let mm = TyView::And(Box::new(m), Box::new(m));
    if a == mm {
        lemma_subtype_reflexive(cs, m);
    } else {
        match a {
            TyView::Or(a1, a2) => {
                lemma_and_self_idempotent(cs, m, *a1);
                lemma_and_self_idempotent(cs, m, *a2);
            },
            _ => {},
        }
    }
}

/// `inheritable_func` idempotence in effect: applying the rewrite a
/// second time nests the representation, but conformance queries
/// against the impl slot answer exactly as after one application
/// conjoined with the marker — provided the original impl type is an
/// intersection tree. (An impl type with a union operand is a known
/// exception of the conservative engine.)
pub proof fn lemma_inheritable_idempotent(
    cs: Seq<ClassEntry>,
    g: crate::value::GenView,
    a: TyView,
)
    requires
        match impl_type_of(g) {
            Option::Some(x) => and_tree(x),
            Option::None => true,
        },
    ensures
        ({
            let once = crate::eval::inheritable_rewrite(g);
            let twice = crate::eval::inheritable_rewrite(once);
            let marker = TyView::Mono(("InheritableType")@);
            &&& impl_type_of(once) is Some
            &&& impl_type_of(twice) is Some
            &&& subtype_v(cs, a, impl_type_of(twice)->0) == (subtype_v(
                cs,
                a,
                impl_type_of(once)->0,
            ) && subtype_v(cs, a, marker))
        }),
{
    let once = crate::eval::inheritable_rewrite(g);
    let twice = crate::eval::inheritable_rewrite(once);
    let marker = TyView::Mono(("InheritableType")@);
    match impl_type_of(g) {
        Option::Some(x) => {
            assert(impl_type_of(once)->0 == TyView::And(Box::new(x), Box::new(marker)));
            assert(impl_type_of(twice)->0 == TyView::And(
                Box::new(TyView::And(Box::new(x), Box::new(marker))),
                Box::new(marker),
            ));
            lemma_and_idempotent(cs, x, marker, a);
        },
        Option::None => {
            assert(impl_type_of(once)->0 == marker);
            assert(impl_type_of(twice)->0 == TyView::And(Box::new(marker), Box::new(marker)));
            lemma_and_self_idempotent(cs, marker, a);
        },
    }
}

/// Transitivity of the parameter order: literal equality chains, a
/// carried type chains by subtype transitivity, and erased targets
/// chain through their types.
proof fn lemma_param_le_trans(u: TypeUniverse, p: TpView, q: TpView, r: TpView)
    requires
        u.wf(),
        caps_ok(u.classes@),
        plain_param(p),
        mid_param(u.classes@, q),
        plain_param(r),
        param_le(u.classes@, p, q),
        param_le(u.classes@, q, r),
    ensures
        param_le(u.classes@, p, r),
    decreases tpv_size(p) + tpv_size(q) + tpv_size(r), 0int,
{
    let cs = u.classes@;
    if p == q {
    } else if q == r {
    } else if p == r {
    } else {
        match (p, q, r) {
            (TpView::TyVal(t), TpView::TyVal(tq), TpView::TyVal(w)) => {
                lemma_subtype_transitive(u, *t, *tq, *w);
            },
            (TpView::Erased(t), TpView::Erased(tq), TpView::Erased(w)) => {
                lemma_subtype_transitive(u, *t, *tq, *w);
            },
            (_, TpView::Erased(tq), TpView::Erased(w)) => {
                match param_class(p) {
                    Some(cl) => {
                        lemma_subtype_transitive(u, cl, *tq, *w);
                    },
                    None => {
                        assert(false);
                    },
                }
            },
            _ => {
                assert(false);
            },
        }
    }
}

} // verus!
