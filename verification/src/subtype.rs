//! The subtype relation over the built universe: a pure query
//! surface. Structural equality short-circuits; `Mono` candidates
//! walk their superclass chain; trait targets are answered from the
//! attached-trait capability set, inherited along the chain; `Poly`
//! subtyping needs an equal nominal head and compares parameters
//! covariantly; refinement subtyping uses a conservative syntactic
//! entailment (conjunction superset after renaming the bound
//! variable), which may reject semantically valid but syntactically
//! unmatched predicates — an accepted precision/performance tradeoff.

use vstd::prelude::*;

use crate::ty::Pred;
use crate::ty::PredView;
use crate::ty::TpView;
use crate::ty::Ty;
use crate::ty::TyView;
use crate::universe::ClassEntry;
use crate::universe::TypeUniverse;
use crate::universe::has_ancestor_name;
use crate::universe::has_capability;
use crate::universe::lookup_name;

verus! {

/// Structural size of a type view, used as the recursion measure of
/// the subtype relation.
pub open spec fn tv_size(v: TyView) -> nat
    decreases v,
{
    match v {
        TyView::Mono(_) => 1,
        TyView::Poly(_, ps) => 1 + tpv_seq_size(ps),
        TyView::Refinement(_, base, _) => 1 + tv_size(*base),
        TyView::Quantified(_, body) => 1 + tv_size(*body),
        TyView::And(l, r) => 1 + tv_size(*l) + tv_size(*r),
        TyView::Or(l, r) => 1 + tv_size(*l) + tv_size(*r),
        TyView::Never => 1,
    }
}

/// Structural size of a parameter view.
pub open spec fn tpv_size(p: TpView) -> nat
    decreases p,
{
    match p {
        TpView::NatLit(_) => 1,
        TpView::StrLit(_) => 1,
        TpView::BoolLit(_) => 1,
        TpView::TyVal(t) => 1 + tv_size(*t),
        TpView::Var(_) => 1,
        TpView::Add(a, b) => 1 + tpv_size(*a) + tpv_size(*b),
        TpView::Sub(a, b) => 1 + tpv_size(*a) + tpv_size(*b),
        TpView::Erased(t) => 1 + tv_size(*t),
        TpView::EnumSet(vs) => 1 + tpv_seq_size(vs),
    }
}

/// Structural size of a parameter-view sequence, one extra unit per
/// element so that dropping an element strictly decreases it.
pub open spec fn tpv_seq_size(vs: Seq<TpView>) -> nat
    decreases vs,
{
    if vs.len() == 0 {
        0
    } else {
        1 + tpv_seq_size(vs.drop_last()) + tpv_size(vs.last())
    }
}

/// The given predicate with its bound variable renamed.
pub open spec fn predv_rename(p: PredView, v: Seq<char>) -> PredView {
    match p {
        PredView::Eq(_, t) => PredView::Eq(v, t),
        PredView::Le(_, t) => PredView::Le(v, t),
        PredView::Ge(_, t) => PredView::Ge(v, t),
        PredView::InSet(_, ts) => PredView::InSet(v, ts),
    }
}

/// Conservative entailment of refinement predicate sets: every
/// conjunct of the target, with its bound variable renamed to the
/// candidate's, appears syntactically among the candidate's.
pub open spec fn pred_superset(
    preds1: Seq<PredView>,
    preds2: Seq<PredView>,
    v: Seq<char>,
) -> bool {
    forall|k: int|
        0 <= k < preds2.len() ==> exists|l: int|
            0 <= l < preds1.len() && preds1[l] == predv_rename(#[trigger] preds2[k], v)
}

/// The name of the class of natural-number literals.
pub open spec fn nat_class_name() -> Seq<char> {
    seq!['N', 'a', 't']
}

/// The name of the class of string literals.
pub open spec fn str_class_name() -> Seq<char> {
    seq!['S', 't', 'r']
}

/// The name of the class of boolean literals.
pub open spec fn bool_class_name() -> Seq<char> {
    seq!['B', 'o', 'o', 'l']
}

/// The class a literal value parameter belongs to, where one is
/// statically known.
pub open spec fn param_class(p: TpView) -> Option<TyView> {
    match p {
        TpView::NatLit(_) => Some(TyView::Mono(nat_class_name())),
        TpView::StrLit(_) => Some(TyView::Mono(str_class_name())),
        TpView::BoolLit(_) => Some(TyView::Mono(bool_class_name())),
        _ => None,
    }
}

/// Nominal/trait subtyping for a registered candidate head name `n`:
/// the target is an ancestor by name, or a capability carried by the
/// entry or an ancestor.
pub open spec fn head_subtype(cs: Seq<ClassEntry>, n: Seq<char>, b: TyView) -> bool {
    match lookup_name(cs, n) {
        Some(i) => {
            ||| (b matches TyView::Mono(m) && has_ancestor_name(cs, i, m))
            ||| has_capability(cs, i, b)
        },
        None => false,
    }
}

/// The subtype relation over type views, given the universe's arena.
pub open spec fn subtype_v(cs: Seq<ClassEntry>, a: TyView, b: TyView) -> bool
    decreases tv_size(a) + tv_size(b),
{
    if a == b {
        true
    } else {
        match a {
            TyView::Never => true,
            TyView::Or(al, ar) => subtype_v(cs, *al, b) && subtype_v(cs, *ar, b),
            _ => match b {
                TyView::And(bl, br) => subtype_v(cs, a, *bl) && subtype_v(cs, a, *br),
                TyView::Or(bl, br) => subtype_v(cs, a, *bl) || subtype_v(cs, a, *br),
                TyView::Refinement(w, base2, preds2) => match a {
                    TyView::Refinement(v, base1, preds1) => subtype_v(cs, *base1, *base2)
                        && pred_superset(preds1, preds2, v),
                    _ => preds2.len() == 0 && subtype_v(cs, a, *base2),
                },
                _ => match a {
                    TyView::And(al, ar) => subtype_v(cs, *al, b) || subtype_v(cs, *ar, b),
                    TyView::Refinement(v, base1, preds1) => subtype_v(cs, *base1, b),
                    TyView::Mono(n) => head_subtype(cs, n, b),
                    TyView::Poly(n, ps) => match b {
                        TyView::Poly(m, qs) => if n == m {
                            ps.len() == qs.len() && params_subtype(cs, ps, qs)
                        } else {
                            head_subtype(cs, n, b)
                        },
                        _ => head_subtype(cs, n, b),
                    },
                    _ => false,
                },
            },
        }
    }
}

/// Pairwise covariant comparison of parameter sequences.
pub open spec fn params_subtype(cs: Seq<ClassEntry>, ps: Seq<TpView>, qs: Seq<TpView>) -> bool
    decreases tpv_seq_size(ps) + tpv_seq_size(qs),
{
    if ps.len() != qs.len() {
        false
    } else if ps.len() == 0 {
        true
    } else {
        params_subtype(cs, ps.drop_last(), qs.drop_last()) && param_le(
            cs,
            ps.last(),
            qs.last(),
        )
    }
}

/// One parameter is below another: literal equality; covariant
/// subtyping for type parameters; for an erased target, the candidate
/// literal's class (or an erased candidate's type) must be below the
/// target's type.
pub open spec fn param_le(cs: Seq<ClassEntry>, p: TpView, q: TpView) -> bool
    decreases tpv_size(p) + tpv_size(q),
{
    if p == q {
        true
    } else {
        match (p, q) {
            (TpView::TyVal(t), TpView::TyVal(u)) => subtype_v(cs, *t, *u),
            (TpView::Erased(t), TpView::Erased(u)) => subtype_v(cs, *t, *u),
            (_, TpView::Erased(u)) => match param_class(p) {
                Some(c) => subtype_v(cs, c, *u),
                None => false,
            },
            _ => false,
        }
    }
}

/// Every parameter view has positive size.
pub proof fn lemma_tpv_size_pos(p: TpView)
    ensures
        tpv_size(p) >= 1,
{
}

/// A sequence's size strictly bounds each element's size.
pub proof fn lemma_tpv_seq_size_ge_elem(vs: Seq<TpView>, i: int)
    requires
        0 <= i < vs.len(),
    ensures
        tpv_seq_size(vs) >= 1 + tpv_size(vs[i]),
    decreases vs.len(),
{
    if i == vs.len() - 1 {
        assert(vs.last() == vs[i]);
    } else {
        lemma_tpv_seq_size_ge_elem(vs.drop_last(), i);
        assert(vs.drop_last()[i] == vs[i]);
    }
}

/// `params_subtype` is the pairwise comparison.
pub proof fn lemma_params_subtype_char(cs: Seq<ClassEntry>, ps: Seq<TpView>, qs: Seq<TpView>)
    ensures
        params_subtype(cs, ps, qs) == (ps.len() == qs.len() && forall|i: int|
            0 <= i < ps.len() ==> param_le(cs, #[trigger] ps[i], qs[i])),
    decreases ps.len(),
{
    if ps.len() == qs.len() && ps.len() > 0 {
        lemma_params_subtype_char(cs, ps.drop_last(), qs.drop_last());
        if params_subtype(cs, ps, qs) {
            assert forall|i: int| 0 <= i < ps.len() implies param_le(
                cs,
                #[trigger] ps[i],
                qs[i],
            ) by {
                if i == ps.len() - 1 {
                    assert(ps.last() == ps[i] && qs.last() == qs[i]);
                } else {
                    assert(ps.drop_last()[i] == ps[i] && qs.drop_last()[i] == qs[i]);
                }
            }
        } else {
            if !params_subtype(cs, ps.drop_last(), qs.drop_last()) {
                assert(exists|i: int|
                    0 <= i < ps.drop_last().len() && !param_le(
                        cs,
                        #[trigger] ps.drop_last()[i],
                        qs.drop_last()[i],
                    ));
                let i = choose|i: int|
                    0 <= i < ps.drop_last().len() && !param_le(
                        cs,
                        #[trigger] ps.drop_last()[i],
                        qs.drop_last()[i],
                    );
                assert(ps.drop_last()[i] == ps[i] && qs.drop_last()[i] == qs[i]);
                assert(!param_le(cs, ps[i], qs[i]));
            } else {
                assert(!param_le(cs, ps.last(), qs.last()));
                assert(ps.last() == ps[ps.len() - 1] && qs.last() == qs[qs.len() - 1]);
            }
        }
    }
}

/// Renames a predicate's bound variable.
fn rename_pred(p: &Pred, v: &String) -> (r: Pred)
    ensures
        r.deep() == predv_rename(p.deep(), v@),
{
    match p {
        Pred::Eq(_, t) => Pred::Eq(v.clone(), t.clone()),
        Pred::Le(_, t) => Pred::Le(v.clone(), t.clone()),
        Pred::Ge(_, t) => Pred::Ge(v.clone(), t.clone()),
        Pred::InSet(_, ts) => {
            let mut out: Vec<crate::ty::TyParam> = Vec::new();
            let mut i: usize = 0;
            while i < ts.len()
                invariant
                    i <= ts@.len(),
                    out@.len() == i,
                    forall|j: int| 0 <= j < i ==> (#[trigger] out@[j]).deep() == ts@[j].deep(),
                decreases ts@.len() - i,
            {
                out.push(ts[i].clone());
                i = i + 1;
            }
            proof {
                crate::ty::lemma_deep_tp_seq(out@);
                crate::ty::lemma_deep_tp_seq(ts@);
                assert(crate::ty::deep_tp_seq(out@) =~= crate::ty::deep_tp_seq(ts@));
            }
            Pred::InSet(v.clone(), out)
        },
    }
}

/// Conservative syntactic entailment of predicate lists: every target
/// conjunct, renamed to the candidate's bound variable, appears among
/// the candidate's conjuncts.
#[verifier::rlimit(60)]
fn pred_superset_of(preds1: &Vec<Pred>, preds2: &Vec<Pred>, v: &String) -> (r: bool)
    ensures
        r == pred_superset(
            crate::ty::deep_pred_seq(preds1@),
            crate::ty::deep_pred_seq(preds2@),
            v@,
        ),
{
    proof {
        crate::ty::lemma_deep_pred_seq(preds1@);
        crate::ty::lemma_deep_pred_seq(preds2@);
    }
    let ghost p1v = crate::ty::deep_pred_seq(preds1@);
    let ghost p2v = crate::ty::deep_pred_seq(preds2@);
    let mut k: usize = 0;
    while k < preds2.len()
        invariant
            k <= preds2@.len(),
            p1v == crate::ty::deep_pred_seq(preds1@),
            p2v == crate::ty::deep_pred_seq(preds2@),
            p1v.len() == preds1@.len(),
            p2v.len() == preds2@.len(),
            forall|i: int| 0 <= i < preds1@.len() ==> p1v[i] == (#[trigger] preds1@[i]).deep(),
            forall|i: int| 0 <= i < preds2@.len() ==> p2v[i] == (#[trigger] preds2@[i]).deep(),
            forall|kk: int|
                0 <= kk < k ==> exists|l: int|
                    0 <= l < p1v.len() && p1v[l] == predv_rename(#[trigger] p2v[kk], v@),
        decreases preds2@.len() - k,
    {
        let want = rename_pred(&preds2[k], v);
        let mut l: usize = 0;
        let mut found = false;
        while l < preds1.len() && !found
            invariant
                l <= preds1@.len(),
                p1v == crate::ty::deep_pred_seq(preds1@),
                p1v.len() == preds1@.len(),
                forall|i: int| 0 <= i < preds1@.len() ==> p1v[i] == (#[trigger] preds1@[i]).deep(),
                want.deep() == predv_rename(p2v[k as int], v@),
                k < p2v.len(),
                !found ==> forall|ll: int| 0 <= ll < l ==> p1v[ll] != want.deep(),
                found ==> exists|ll: int| 0 <= ll < p1v.len() && p1v[ll] == want.deep(),
            decreases preds1@.len() - l + (if found { 0int } else { 1int }),
        {
            if crate::ty::pred_eq(&preds1[l], &want) {
                found = true;
                proof {
                    assert(p1v[l as int] == want.deep());
                }
            } else {
                l = l + 1;
            }
        }
        if !found {
            proof {
                assert(forall|ll: int| 0 <= ll < p1v.len() ==> p1v[ll] != predv_rename(
                    p2v[k as int],
                    v@,
                ));
                assert(!pred_superset(p1v, p2v, v@));
            }
            return false;
        }
        k = k + 1;
    }
    true
}

impl TypeUniverse {
    /// Nominal/trait subtyping for a registered candidate head name.
    fn head_subtype_of(&self, n: &String, b: &Ty) -> (r: bool)
        ensures
            r == head_subtype(self.classes@, n@, b.deep()),
    {
        match self.lookup_class(n.as_str()) {
            Some(i) => {
                let nominal = match b {
                    Ty::Mono(m) => self.has_ancestor_named(i, m),
                    _ => false,
                };
                nominal || self.has_capability_of(i, b)
            },
            None => false,
        }
    }

    /// Decides whether `a` is a subtype of `b` over this universe.
    /// The result is exactly the `subtype_v` relation.
    #[verifier::rlimit(100)]
    pub fn is_subtype(&self, a: &Ty, b: &Ty) -> (r: bool)
        ensures
            r == subtype_v(self.classes@, a.deep(), b.deep()),
        decreases tv_size(a.deep()) + tv_size(b.deep()),
    {
        if crate::ty::ty_eq(a, b) {
            return true;
        }
        match a {
            Ty::Never => true,
            Ty::Or(al, ar) => self.is_subtype(al, b) && self.is_subtype(ar, b),
            _ => match b {
                Ty::And(bl, br) => self.is_subtype(a, bl) && self.is_subtype(a, br),
                Ty::Or(bl, br) => self.is_subtype(a, bl) || self.is_subtype(a, br),
                Ty::Refinement(_w, base2, preds2) => match a {
                    Ty::Refinement(v, base1, preds1) => self.is_subtype(base1, base2)
                        && pred_superset_of(preds1, preds2, v),
                    _ => {
                        proof {
                            crate::ty::lemma_deep_pred_seq(preds2@);
                        }
                        preds2.len() == 0 && self.is_subtype(a, base2)
                    },
                },
                _ => match a {
                    Ty::And(al, ar) => self.is_subtype(al, b) || self.is_subtype(ar, b),
                    Ty::Refinement(_v, base1, _preds1) => self.is_subtype(base1, b),
                    Ty::Mono(n) => self.head_subtype_of(n, b),
                    Ty::Poly(n, ps) => match b {
                        Ty::Poly(m, qs) => {
                            proof {
                                crate::ty::lemma_deep_tp_seq(ps@);
                                crate::ty::lemma_deep_tp_seq(qs@);
                            }
                            if n.eq(m) {
                                if ps.len() == qs.len() {
                                    self.params_subtype_of(ps, qs)
                                } else {
                                    false
                                }
                            } else {
                                self.head_subtype_of(n, b)
                            }
                        },
                        _ => self.head_subtype_of(n, b),
                    },
                    _ => false,
                },
            },
        }
    }

    /// Pairwise covariant comparison of parameter lists.
    fn params_subtype_of(&self, ps: &Vec<crate::ty::TyParam>, qs: &Vec<crate::ty::TyParam>) -> (r:
        bool)
        requires
            ps@.len() == qs@.len(),
        ensures
            r == params_subtype(
                self.classes@,
                crate::ty::deep_tp_seq(ps@),
                crate::ty::deep_tp_seq(qs@),
            ),
        decreases tpv_seq_size(crate::ty::deep_tp_seq(ps@)) + tpv_seq_size(
            crate::ty::deep_tp_seq(qs@),
        ),
    {
        proof {
            crate::ty::lemma_deep_tp_seq(ps@);
            crate::ty::lemma_deep_tp_seq(qs@);
            lemma_params_subtype_char(
                self.classes@,
                crate::ty::deep_tp_seq(ps@),
                crate::ty::deep_tp_seq(qs@),
            );
        }
        let ghost psv = crate::ty::deep_tp_seq(ps@);
        let ghost qsv = crate::ty::deep_tp_seq(qs@);
        let mut i: usize = 0;
        while i < ps.len()
            invariant
                i <= ps@.len(),
                ps@.len() == qs@.len(),
                psv == crate::ty::deep_tp_seq(ps@),
                qsv == crate::ty::deep_tp_seq(qs@),
                psv.len() == ps@.len(),
                qsv.len() == qs@.len(),
                forall|j: int| 0 <= j < ps@.len() ==> psv[j] == (#[trigger] ps@[j]).deep(),
                forall|j: int| 0 <= j < qs@.len() ==> qsv[j] == (#[trigger] qs@[j]).deep(),
                forall|j: int| 0 <= j < i ==> param_le(self.classes@, #[trigger] psv[j], qsv[j]),
            decreases ps@.len() - i,
        {
            proof {
                lemma_tpv_seq_size_ge_elem(psv, i as int);
                lemma_tpv_seq_size_ge_elem(qsv, i as int);
            }
            if !self.param_le_of(&ps[i], &qs[i]) {
                proof {
                    lemma_params_subtype_char(self.classes@, psv, qsv);
                }
                return false;
            }
            i = i + 1;
        }
        proof {
            lemma_params_subtype_char(self.classes@, psv, qsv);
        }
        true
    }

    /// One parameter below another, as `param_le`.
    #[verifier::rlimit(60)]
    fn param_le_of(&self, p: &crate::ty::TyParam, q: &crate::ty::TyParam) -> (r: bool)
        ensures
            r == param_le(self.classes@, p.deep(), q.deep()),
        decreases tpv_size(p.deep()) + tpv_size(q.deep()),
    {
        if crate::ty::tp_eq(p, q) {
            return true;
        }
        match (p, q) {
            (crate::ty::TyParam::TyVal(t), crate::ty::TyParam::TyVal(u)) => self.is_subtype(t, u),
            (crate::ty::TyParam::Erased(t), crate::ty::TyParam::Erased(u)) => self.is_subtype(
                t,
                u,
            ),
            (_, crate::ty::TyParam::Erased(u)) => {
                proof {
                    lemma_tpv_size_pos(p.deep());
                }
                match p {
                    crate::ty::TyParam::NatLit(_) => {
                        let c = crate::ty::mono("Nat");
                        proof {
                            reveal_strlit("Nat");
                            assert(("Nat")@ =~= nat_class_name());
                        }
                        self.is_subtype(&c, u)
                    },
                    crate::ty::TyParam::StrLit(_) => {
                        let c = crate::ty::mono("Str");
                        proof {
                            reveal_strlit("Str");
                            assert(("Str")@ =~= str_class_name());
                        }
                        self.is_subtype(&c, u)
                    },
                    crate::ty::TyParam::BoolLit(_) => {
                        let c = crate::ty::mono("Bool");
                        proof {
                            reveal_strlit("Bool");
                            assert(("Bool")@ =~= bool_class_name());
                        }
                        self.is_subtype(&c, u)
                    },
                    _ => false,
                }
            },
            _ => false,
        }
    }
}

} // verus!
