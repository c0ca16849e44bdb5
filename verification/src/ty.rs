//! The recursive `Ty` value: nominal classes and traits, parametric
//! instantiations, refinement types, quantified types, intersections,
//! unions and the bottom type, together with type-level value
//! expressions (`TyParam`) such as const-generic lengths.
//!
//! Each executable datatype has a mathematical view (`*View`) over
//! `Seq<char>` names; contracts are stated over these views.

use vstd::prelude::*;

verus! {

/// A type-level value expression: a literal, a type, a quantified value
/// variable, arithmetic over other parameters, an erased parameter
/// ("any value of this type") or an enumeration ("one of this set").
#[derive(Debug)]
pub enum TyParam {
    /// A natural-number literal, e.g. a concrete array length.
    NatLit(u64),
    /// A string literal.
    StrLit(String),
    /// A boolean literal.
    BoolLit(bool),
    /// A type used as a parameter.
    TyVal(Box<Ty>),
    /// A quantified value variable, e.g. the length `N`.
    Var(String),
    /// Symbolic or numeric addition of two parameters.
    Add(Box<TyParam>, Box<TyParam>),
    /// Symbolic or numeric subtraction of two parameters.
    Sub(Box<TyParam>, Box<TyParam>),
    /// Any value of the given type, with the value itself erased.
    Erased(Box<Ty>),
    /// One value out of a finite set.
    EnumSet(Vec<TyParam>),
}

/// One conjunct of a refinement predicate, over the bound variable.
#[derive(Debug)]
pub enum Pred {
    /// The bound variable equals the value.
    Eq(String, TyParam),
    /// The bound variable is at most the value.
    Le(String, TyParam),
    /// The bound variable is at least the value.
    Ge(String, TyParam),
    /// The bound variable is one of the values.
    InSet(String, Vec<TyParam>),
}

/// A universally bound variable of a quantified type, with its bound:
/// either an instance bound (a value of that type, e.g. `N: Nat`, or a
/// type variable `T: Type`) or an upper subtype bound.
#[derive(Debug)]
pub enum TyBound {
    /// The variable is an instance of the type.
    Instance(String, Box<Ty>),
    /// The variable is a subtype of the type.
    Subtype(String, Box<Ty>),
}

/// A type value.
#[derive(Debug)]
pub enum Ty {
    /// A nominal class or trait, by name. Quantified variable
    /// occurrences are also nominal, bound at the enclosing
    /// `Quantified`.
    Mono(String),
    /// A generic class or trait instantiated with type or value
    /// parameters.
    Poly(String, Vec<TyParam>),
    /// Values of the base type satisfying every predicate over the
    /// bound variable; an empty predicate set means no narrowing.
    Refinement(String, Box<Ty>, Vec<Pred>),
    /// A universally parametric type.
    Quantified(Vec<TyBound>, Box<Ty>),
    /// Intersection of two types.
    And(Box<Ty>, Box<Ty>),
    /// Union of two types.
    Or(Box<Ty>, Box<Ty>),
    /// The bottom type: no values.
    Never,
}

/// Mathematical view of a `TyParam`.
pub enum TpView {
    NatLit(nat),
    StrLit(Seq<char>),
    BoolLit(bool),
    TyVal(Box<TyView>),
    Var(Seq<char>),
    Add(Box<TpView>, Box<TpView>),
    Sub(Box<TpView>, Box<TpView>),
    Erased(Box<TyView>),
    EnumSet(Seq<TpView>),
}

/// Mathematical view of a `Pred`.
pub enum PredView {
    Eq(Seq<char>, TpView),
    Le(Seq<char>, TpView),
    Ge(Seq<char>, TpView),
    InSet(Seq<char>, Seq<TpView>),
}

/// Mathematical view of a `TyBound`.
pub enum TyBoundView {
    Instance(Seq<char>, Box<TyView>),
    Subtype(Seq<char>, Box<TyView>),
}

/// Mathematical view of a `Ty`.
pub enum TyView {
    Mono(Seq<char>),
    Poly(Seq<char>, Seq<TpView>),
    Refinement(Seq<char>, Box<TyView>, Seq<PredView>),
    Quantified(Seq<TyBoundView>, Box<TyView>),
    And(Box<TyView>, Box<TyView>),
    Or(Box<TyView>, Box<TyView>),
    Never,
}

impl TyParam {
    /// The view of this parameter.
    pub open spec fn deep(self) -> TpView
        decreases self,
    {
        match self {
            TyParam::NatLit(n) => TpView::NatLit(n as nat),
            TyParam::StrLit(s) => TpView::StrLit(s@),
            TyParam::BoolLit(b) => TpView::BoolLit(b),
            TyParam::TyVal(t) => TpView::TyVal(Box::new(t.deep())),
            TyParam::Var(v) => TpView::Var(v@),
            TyParam::Add(a, b) => TpView::Add(Box::new(a.deep()), Box::new(b.deep())),
            TyParam::Sub(a, b) => TpView::Sub(Box::new(a.deep()), Box::new(b.deep())),
            TyParam::Erased(t) => TpView::Erased(Box::new(t.deep())),
            TyParam::EnumSet(vs) => TpView::EnumSet(deep_tp_seq(vs@)),
        }
    }
}

/// The elementwise view of a parameter sequence.
pub open spec fn deep_tp_seq(vs: Seq<TyParam>) -> Seq<TpView>
    decreases vs,
{
    if vs.len() == 0 {
        Seq::empty()
    } else {
        deep_tp_seq(vs.drop_last()).push(vs.last().deep())
    }
}

impl Pred {
    /// The view of this predicate.
    pub open spec fn deep(self) -> PredView
        decreases self,
    {
        match self {
            Pred::Eq(v, p) => PredView::Eq(v@, p.deep()),
            Pred::Le(v, p) => PredView::Le(v@, p.deep()),
            Pred::Ge(v, p) => PredView::Ge(v@, p.deep()),
            Pred::InSet(v, ps) => PredView::InSet(v@, deep_tp_seq(ps@)),
        }
    }
}

/// The elementwise view of a predicate sequence.
pub open spec fn deep_pred_seq(vs: Seq<Pred>) -> Seq<PredView>
    decreases vs,
{
    if vs.len() == 0 {
        Seq::empty()
    } else {
        deep_pred_seq(vs.drop_last()).push(vs.last().deep())
    }
}

impl TyBound {
    /// The view of this bound.
    pub open spec fn deep(self) -> TyBoundView
        decreases self,
    {
        match self {
            TyBound::Instance(v, t) => TyBoundView::Instance(v@, Box::new(t.deep())),
            TyBound::Subtype(v, t) => TyBoundView::Subtype(v@, Box::new(t.deep())),
        }
    }
}

/// The elementwise view of a bound sequence.
pub open spec fn deep_bound_seq(vs: Seq<TyBound>) -> Seq<TyBoundView>
    decreases vs,
{
    if vs.len() == 0 {
        Seq::empty()
    } else {
        deep_bound_seq(vs.drop_last()).push(vs.last().deep())
    }
}

impl Ty {
    /// The view of this type.
    pub open spec fn deep(self) -> TyView
        decreases self,
    {
        match self {
            Ty::Mono(n) => TyView::Mono(n@),
            Ty::Poly(n, ps) => TyView::Poly(n@, deep_tp_seq(ps@)),
            Ty::Refinement(v, base, preds) => TyView::Refinement(
                v@,
                Box::new(base.deep()),
                deep_pred_seq(preds@),
            ),
            Ty::Quantified(bs, body) => TyView::Quantified(
                deep_bound_seq(bs@),
                Box::new(body.deep()),
            ),
            Ty::And(l, r) => TyView::And(Box::new(l.deep()), Box::new(r.deep())),
            Ty::Or(l, r) => TyView::Or(Box::new(l.deep()), Box::new(r.deep())),
            Ty::Never => TyView::Never,
        }
    }
}

/// `deep_tp_seq` is the elementwise image of `TyParam::deep`.
pub broadcast proof fn lemma_deep_tp_seq(vs: Seq<TyParam>)
    ensures
        (#[trigger] deep_tp_seq(vs)).len() == vs.len(),
        forall|i: int| 0 <= i < vs.len() ==> deep_tp_seq(vs)[i] == vs[i].deep(),
    decreases vs.len(),
{
    if vs.len() > 0 {
        lemma_deep_tp_seq(vs.drop_last());
    }
}

/// `deep_pred_seq` is the elementwise image of `Pred::deep`.
pub broadcast proof fn lemma_deep_pred_seq(vs: Seq<Pred>)
    ensures
        (#[trigger] deep_pred_seq(vs)).len() == vs.len(),
        forall|i: int| 0 <= i < vs.len() ==> deep_pred_seq(vs)[i] == vs[i].deep(),
    decreases vs.len(),
{
    if vs.len() > 0 {
        lemma_deep_pred_seq(vs.drop_last());
    }
}

/// `deep_bound_seq` is the elementwise image of `TyBound::deep`.
pub broadcast proof fn lemma_deep_bound_seq(vs: Seq<TyBound>)
    ensures
        (#[trigger] deep_bound_seq(vs)).len() == vs.len(),
        forall|i: int| 0 <= i < vs.len() ==> deep_bound_seq(vs)[i] == vs[i].deep(),
    decreases vs.len(),
{
    if vs.len() > 0 {
        lemma_deep_bound_seq(vs.drop_last());
    }
}

/// Clones a parameter list, preserving each element's view.
fn clone_tp_vec(vs: &Vec<TyParam>) -> (r: Vec<TyParam>)
    ensures
        r@.len() == vs@.len(),
        forall|i: int| 0 <= i < vs@.len() ==> (#[trigger] r@[i]).deep() == vs@[i].deep(),
    decreases vs,
{
    let mut out: Vec<TyParam> = Vec::new();
    let mut i: usize = 0;
    while i < vs.len()
        invariant
            i <= vs@.len(),
            out@.len() == i,
            forall|j: int| 0 <= j < i ==> (#[trigger] out@[j]).deep() == vs@[j].deep(),
        decreases vs@.len() - i,
    {
        out.push(vs[i].clone());
        i = i + 1;
    }
    out
}

/// Clones a predicate list, preserving each element's view.
fn clone_pred_vec(vs: &Vec<Pred>) -> (r: Vec<Pred>)
    ensures
        r@.len() == vs@.len(),
        forall|i: int| 0 <= i < vs@.len() ==> (#[trigger] r@[i]).deep() == vs@[i].deep(),
    decreases vs,
{
    let mut out: Vec<Pred> = Vec::new();
    let mut i: usize = 0;
    while i < vs.len()
        invariant
            i <= vs@.len(),
            out@.len() == i,
            forall|j: int| 0 <= j < i ==> (#[trigger] out@[j]).deep() == vs@[j].deep(),
        decreases vs@.len() - i,
    {
        out.push(vs[i].clone());
        i = i + 1;
    }
    out
}

/// Clones a bound list, preserving each element's view.
fn clone_bound_vec(vs: &Vec<TyBound>) -> (r: Vec<TyBound>)
    ensures
        r@.len() == vs@.len(),
        forall|i: int| 0 <= i < vs@.len() ==> (#[trigger] r@[i]).deep() == vs@[i].deep(),
    decreases vs,
{
    let mut out: Vec<TyBound> = Vec::new();
    let mut i: usize = 0;
    while i < vs.len()
        invariant
            i <= vs@.len(),
            out@.len() == i,
            forall|j: int| 0 <= j < i ==> (#[trigger] out@[j]).deep() == vs@[j].deep(),
        decreases vs@.len() - i,
    {
        out.push(vs[i].clone());
        i = i + 1;
    }
    out
}

impl Clone for TyParam {
    /// Clones the parameter; the view is unchanged.
    fn clone(&self) -> (r: TyParam)
        ensures
            r.deep() == self.deep(),
        decreases self,
    {
        match self {
            TyParam::NatLit(n) => TyParam::NatLit(*n),
            TyParam::StrLit(s) => TyParam::StrLit(s.clone()),
            TyParam::BoolLit(b) => TyParam::BoolLit(*b),
            TyParam::TyVal(t) => TyParam::TyVal(Box::new((**t).clone())),
            TyParam::Var(v) => TyParam::Var(v.clone()),
            TyParam::Add(a, b) => TyParam::Add(
                Box::new((**a).clone()),
                Box::new((**b).clone()),
            ),
            TyParam::Sub(a, b) => TyParam::Sub(
                Box::new((**a).clone()),
                Box::new((**b).clone()),
            ),
            TyParam::Erased(t) => TyParam::Erased(Box::new((**t).clone())),
            TyParam::EnumSet(vs) => {
                let cs = clone_tp_vec(vs);
                proof {
                    broadcast use lemma_deep_tp_seq;
                    assert(deep_tp_seq(cs@) =~= deep_tp_seq(vs@));
                }
                TyParam::EnumSet(cs)
            },
        }
    }
}

impl Clone for Pred {
    /// Clones the predicate; the view is unchanged.
    fn clone(&self) -> (r: Pred)
        ensures
            r.deep() == self.deep(),
        decreases self,
    {
        match self {
            Pred::Eq(v, p) => Pred::Eq(v.clone(), p.clone()),
            Pred::Le(v, p) => Pred::Le(v.clone(), p.clone()),
            Pred::Ge(v, p) => Pred::Ge(v.clone(), p.clone()),
            Pred::InSet(v, ps) => {
                let cs = clone_tp_vec(ps);
                proof {
                    broadcast use lemma_deep_tp_seq;
                    assert(deep_tp_seq(cs@) =~= deep_tp_seq(ps@));
                }
                Pred::InSet(v.clone(), cs)
            },
        }
    }
}

impl Clone for TyBound {
    /// Clones the bound; the view is unchanged.
    fn clone(&self) -> (r: TyBound)
        ensures
            r.deep() == self.deep(),
        decreases self,
    {
        match self {
            TyBound::Instance(v, t) => TyBound::Instance(v.clone(), Box::new((**t).clone())),
            TyBound::Subtype(v, t) => TyBound::Subtype(v.clone(), Box::new((**t).clone())),
        }
    }
}

impl Clone for Ty {
    /// Clones the type; the view is unchanged.
    fn clone(&self) -> (r: Ty)
        ensures
            r.deep() == self.deep(),
        decreases self,
    {
        match self {
            Ty::Mono(n) => Ty::Mono(n.clone()),
            Ty::Poly(n, ps) => {
                let cs = clone_tp_vec(ps);
                proof {
                    broadcast use lemma_deep_tp_seq;
                    assert(deep_tp_seq(cs@) =~= deep_tp_seq(ps@));
                }
                Ty::Poly(n.clone(), cs)
            },
            Ty::Refinement(v, base, preds) => {
                let cs = clone_pred_vec(preds);
                proof {
                    broadcast use lemma_deep_pred_seq;
                    assert(deep_pred_seq(cs@) =~= deep_pred_seq(preds@));
                }
                Ty::Refinement(v.clone(), Box::new((**base).clone()), cs)
            },
            Ty::Quantified(bs, body) => {
                let cs = clone_bound_vec(bs);
                proof {
                    broadcast use lemma_deep_bound_seq;
                    assert(deep_bound_seq(cs@) =~= deep_bound_seq(bs@));
                }
                Ty::Quantified(cs, Box::new((**body).clone()))
            },
            Ty::And(l, r) => Ty::And(Box::new((**l).clone()), Box::new((**r).clone())),
            Ty::Or(l, r) => Ty::Or(Box::new((**l).clone()), Box::new((**r).clone())),
            Ty::Never => Ty::Never,
        }
    }
}

/// A nominal class or trait type, by name.
pub fn mono(name: &str) -> (r: Ty)
    ensures
        r.deep() == TyView::Mono(name@),
{
    Ty::Mono(name.to_owned())
}

/// A generic class or trait instantiated with parameters.
pub fn poly(name: &str, params: Vec<TyParam>) -> (r: Ty)
    ensures
        r.deep() == TyView::Poly(name@, deep_tp_seq(params@)),
{
    Ty::Poly(name.to_owned(), params)
}

/// The intersection of two types.
pub fn and(l: Ty, r: Ty) -> (t: Ty)
    ensures
        t.deep() == TyView::And(Box::new(l.deep()), Box::new(r.deep())),
{
    Ty::And(Box::new(l), Box::new(r))
}

/// The union of two types.
pub fn or(l: Ty, r: Ty) -> (t: Ty)
    ensures
        t.deep() == TyView::Or(Box::new(l.deep()), Box::new(r.deep())),
{
    Ty::Or(Box::new(l), Box::new(r))
}

/// A refinement of `base` by predicates over the bound variable.
pub fn refinement(var: &str, base: Ty, preds: Vec<Pred>) -> (t: Ty)
    ensures
        t.deep() == TyView::Refinement(var@, Box::new(base.deep()), deep_pred_seq(preds@)),
{
    Ty::Refinement(var.to_owned(), Box::new(base), preds)
}

/// A universally parametric type with explicit bound variables.
pub fn quantified(bounds: Vec<TyBound>, body: Ty) -> (t: Ty)
    ensures
        t.deep() == TyView::Quantified(deep_bound_seq(bounds@), Box::new(body.deep())),
{
    Ty::Quantified(bounds, Box::new(body))
}

/// Marks a type as universally parametric; its quantified variable
/// occurrences stay nominal in the body.
pub fn quantify(body: Ty) -> (t: Ty)
    ensures
        t.deep() == TyView::Quantified(Seq::empty(), Box::new(body.deep())),
{
    let bs: Vec<TyBound> = Vec::new();
    proof {
        assert(deep_bound_seq(bs@) =~= Seq::<TyBoundView>::empty());
    }
    Ty::Quantified(bs, Box::new(body))
}

/// A type used as a type-level parameter.
pub fn ty_tp(t: Ty) -> (r: TyParam)
    ensures
        r.deep() == TpView::TyVal(Box::new(t.deep())),
{
    TyParam::TyVal(Box::new(t))
}

/// A natural-number literal parameter.
pub fn nat_tp(n: u64) -> (r: TyParam)
    ensures
        r.deep() == TpView::NatLit(n as nat),
{
    TyParam::NatLit(n)
}

/// A quantified value-variable parameter, e.g. a symbolic length.
pub fn var_tp(name: &str) -> (r: TyParam)
    ensures
        r.deep() == TpView::Var(name@),
{
    TyParam::Var(name.to_owned())
}

/// An erased parameter: any value of the given type.
pub fn erased_tp(t: Ty) -> (r: TyParam)
    ensures
        r.deep() == TpView::Erased(Box::new(t.deep())),
{
    TyParam::Erased(Box::new(t))
}

/// Numeric addition when both operands are concrete naturals that
/// fit the machine word, symbolic otherwise.
pub open spec fn tp_add_spec(a: TpView, b: TpView) -> TpView {
    match (a, b) {
        (TpView::NatLit(x), TpView::NatLit(y)) => if x + y <= u64::MAX {
            TpView::NatLit((x + y) as nat)
        } else {
            TpView::Add(Box::new(a), Box::new(b))
        },
        _ => TpView::Add(Box::new(a), Box::new(b)),
    }
}

/// Numeric subtraction when both operands are concrete naturals and
/// the result stays a natural, symbolic otherwise.
pub open spec fn tp_sub_spec(a: TpView, b: TpView) -> TpView {
    match (a, b) {
        (TpView::NatLit(x), TpView::NatLit(y)) => if x >= y {
            TpView::NatLit((x - y) as nat)
        } else {
            TpView::Sub(Box::new(a), Box::new(b))
        },
        _ => TpView::Sub(Box::new(a), Box::new(b)),
    }
}

/// Adds two type-level parameters: the sum is numeric when both are
/// concrete naturals (and fits), and stays symbolic when either
/// operand is an unresolved quantified variable or expression.
pub fn tp_add(a: TyParam, b: TyParam) -> (r: TyParam)
    ensures
        r.deep() == tp_add_spec(a.deep(), b.deep()),
{
    match (&a, &b) {
        (TyParam::NatLit(x), TyParam::NatLit(y)) => {
            if *x <= u64::MAX - *y {
                TyParam::NatLit(*x + *y)
            } else {
                TyParam::Add(Box::new(a), Box::new(b))
            }
        },
        _ => TyParam::Add(Box::new(a), Box::new(b)),
    }
}

/// Subtracts two type-level parameters: numeric when both are
/// concrete naturals with a natural result, symbolic otherwise.
pub fn tp_sub(a: TyParam, b: TyParam) -> (r: TyParam)
    ensures
        r.deep() == tp_sub_spec(a.deep(), b.deep()),
{
    match (&a, &b) {
        (TyParam::NatLit(x), TyParam::NatLit(y)) => {
            if *x >= *y {
                TyParam::NatLit(*x - *y)
            } else {
                TyParam::Sub(Box::new(a), Box::new(b))
            }
        },
        _ => TyParam::Sub(Box::new(a), Box::new(b)),
    }
}

/// Const-generic arithmetic on declared lengths: concatenation of
/// lengths `N` and `M` yields `N + M`, one more element yields
/// `N + 1`, one fewer yields `N - 1` — numerically on concrete
/// lengths, and as the symbolic expression on quantified length
/// variables.
pub proof fn lemma_const_generic_arithmetic(n: u64, m: u64, v: Seq<char>, w: Seq<char>)
    requires
        n + m <= u64::MAX,
        1 <= n < u64::MAX,
    ensures
        tp_add_spec(TpView::NatLit(n as nat), TpView::NatLit(m as nat)) == TpView::NatLit(
            (n + m) as nat,
        ),
        tp_add_spec(TpView::NatLit(n as nat), TpView::NatLit(1)) == TpView::NatLit((n + 1) as nat),
        tp_sub_spec(TpView::NatLit(n as nat), TpView::NatLit(1)) == TpView::NatLit((n - 1) as nat),
        tp_add_spec(TpView::Var(v), TpView::Var(w)) == TpView::Add(
            Box::new(TpView::Var(v)),
            Box::new(TpView::Var(w)),
        ),
        tp_sub_spec(TpView::Var(v), TpView::NatLit(1)) == TpView::Sub(
            Box::new(TpView::Var(v)),
            Box::new(TpView::NatLit(1)),
        ),
{
}


/// A mutating receiver type: the reference's type before the call
/// and the type it leaves behind after it.
pub fn ref_mut_t(before: Ty, after: Ty) -> (r: Ty)
    ensures
        r.deep() == TyView::Poly(
            ("RefMut")@,
            seq![
                TpView::TyVal(Box::new(before.deep())),
                TpView::TyVal(Box::new(after.deep())),
            ],
        ),
{
    let ps: Vec<TyParam> = vec![
        TyParam::TyVal(Box::new(before)),
        TyParam::TyVal(Box::new(after)),
    ];
    proof {
        lemma_deep_tp_seq(ps@);
        assert(deep_tp_seq(ps@) =~= seq![ps@[0].deep(), ps@[1].deep()]);
    }
    Ty::Poly(("RefMut").to_owned(), ps)
}

/// The elementwise view of a type sequence.
pub open spec fn deep_ty_seq(vs: Seq<Ty>) -> Seq<TyView>
    decreases vs,
{
    if vs.len() == 0 {
        Seq::empty()
    } else {
        deep_ty_seq(vs.drop_last()).push(vs.last().deep())
    }
}

/// `deep_ty_seq` is the elementwise image of `Ty::deep`.
pub broadcast proof fn lemma_deep_ty_seq(vs: Seq<Ty>)
    ensures
        (#[trigger] deep_ty_seq(vs)).len() == vs.len(),
        forall|i: int| 0 <= i < vs.len() ==> deep_ty_seq(vs)[i] == vs[i].deep(),
    decreases vs.len(),
{
    if vs.len() > 0 {
        lemma_deep_ty_seq(vs.drop_last());
    }
}

/// The views of a type sequence carried as type-valued parameters.
pub open spec fn tyval_params(ts: Seq<Ty>) -> Seq<TpView>
    decreases ts,
{
    if ts.len() == 0 {
        Seq::empty()
    } else {
        tyval_params(ts.drop_last()).push(TpView::TyVal(Box::new(ts.last().deep())))
    }
}

/// `tyval_params` is the elementwise type-parameter image.
pub broadcast proof fn lemma_tyval_params(ts: Seq<Ty>)
    ensures
        (#[trigger] tyval_params(ts)).len() == ts.len(),
        forall|i: int|
            0 <= i < ts.len() ==> tyval_params(ts)[i] == TpView::TyVal(
                Box::new(ts[i].deep()),
            ),
    decreases ts.len(),
{
    if ts.len() > 0 {
        lemma_tyval_params(ts.drop_last());
    }
}

/// Compares two parameter lists by their views.
fn tp_vec_eq(xs: &Vec<TyParam>, ys: &Vec<TyParam>) -> (r: bool)
    ensures
        r == (deep_tp_seq(xs@) == deep_tp_seq(ys@)),
    decreases xs,
{
    proof {
        lemma_deep_tp_seq(xs@);
        lemma_deep_tp_seq(ys@);
    }
    if xs.len() != ys.len() {
        return false;
    }
    let mut i: usize = 0;
    while i < xs.len()
        invariant
            i <= xs@.len(),
            xs@.len() == ys@.len(),
            forall|j: int| 0 <= j < i ==> (#[trigger] xs@[j].deep()) == ys@[j].deep(),
        decreases xs@.len() - i,
    {
        if !tp_eq(&xs[i], &ys[i]) {
            proof {
                lemma_deep_tp_seq(xs@);
                lemma_deep_tp_seq(ys@);
                assert(deep_tp_seq(xs@)[i as int] == xs@[i as int].deep());
                assert(deep_tp_seq(ys@)[i as int] == ys@[i as int].deep());
            }
            return false;
        }
        i = i + 1;
    }
    proof {
        lemma_deep_tp_seq(xs@);
        lemma_deep_tp_seq(ys@);
        assert(deep_tp_seq(xs@) =~= deep_tp_seq(ys@));
    }
    true
}

/// Compares two predicate lists by their views.
fn pred_vec_eq(xs: &Vec<Pred>, ys: &Vec<Pred>) -> (r: bool)
    ensures
        r == (deep_pred_seq(xs@) == deep_pred_seq(ys@)),
    decreases xs,
{
    proof {
        lemma_deep_pred_seq(xs@);
        lemma_deep_pred_seq(ys@);
    }
    if xs.len() != ys.len() {
        return false;
    }
    let mut i: usize = 0;
    while i < xs.len()
        invariant
            i <= xs@.len(),
            xs@.len() == ys@.len(),
            forall|j: int| 0 <= j < i ==> (#[trigger] xs@[j].deep()) == ys@[j].deep(),
        decreases xs@.len() - i,
    {
        if !pred_eq(&xs[i], &ys[i]) {
            proof {
                lemma_deep_pred_seq(xs@);
                lemma_deep_pred_seq(ys@);
                assert(deep_pred_seq(xs@)[i as int] == xs@[i as int].deep());
                assert(deep_pred_seq(ys@)[i as int] == ys@[i as int].deep());
            }
            return false;
        }
        i = i + 1;
    }
    proof {
        lemma_deep_pred_seq(xs@);
        lemma_deep_pred_seq(ys@);
        assert(deep_pred_seq(xs@) =~= deep_pred_seq(ys@));
    }
    true
}

/// Compares two bound lists by their views.
fn bound_vec_eq(xs: &Vec<TyBound>, ys: &Vec<TyBound>) -> (r: bool)
    ensures
        r == (deep_bound_seq(xs@) == deep_bound_seq(ys@)),
    decreases xs,
{
    proof {
        lemma_deep_bound_seq(xs@);
        lemma_deep_bound_seq(ys@);
    }
    if xs.len() != ys.len() {
        return false;
    }
    let mut i: usize = 0;
    while i < xs.len()
        invariant
            i <= xs@.len(),
            xs@.len() == ys@.len(),
            forall|j: int| 0 <= j < i ==> (#[trigger] xs@[j].deep()) == ys@[j].deep(),
        decreases xs@.len() - i,
    {
        if !bound_eq(&xs[i], &ys[i]) {
            proof {
                lemma_deep_bound_seq(xs@);
                lemma_deep_bound_seq(ys@);
                assert(deep_bound_seq(xs@)[i as int] == xs@[i as int].deep());
                assert(deep_bound_seq(ys@)[i as int] == ys@[i as int].deep());
            }
            return false;
        }
        i = i + 1;
    }
    proof {
        lemma_deep_bound_seq(xs@);
        lemma_deep_bound_seq(ys@);
        assert(deep_bound_seq(xs@) =~= deep_bound_seq(ys@));
    }
    true
}

/// Compares two parameters by their views.
pub fn tp_eq(a: &TyParam, b: &TyParam) -> (r: bool)
    ensures
        r == (a.deep() == b.deep()),
    decreases a,
{
    match a {
        TyParam::NatLit(x) => match b {
            TyParam::NatLit(y) => *x == *y,
            _ => false,
        },
        TyParam::StrLit(x) => match b {
            TyParam::StrLit(y) => x.eq(y),
            _ => false,
        },
        TyParam::BoolLit(x) => match b {
            TyParam::BoolLit(y) => *x == *y,
            _ => false,
        },
        TyParam::TyVal(x) => match b {
            TyParam::TyVal(y) => ty_eq(x, y),
            _ => false,
        },
        TyParam::Var(x) => match b {
            TyParam::Var(y) => x.eq(y),
            _ => false,
        },
        TyParam::Add(ax, ay) => match b {
            TyParam::Add(bx, by) => tp_eq(ax, bx) && tp_eq(ay, by),
            _ => false,
        },
        TyParam::Sub(ax, ay) => match b {
            TyParam::Sub(bx, by) => tp_eq(ax, bx) && tp_eq(ay, by),
            _ => false,
        },
        TyParam::Erased(x) => match b {
            TyParam::Erased(y) => ty_eq(x, y),
            _ => false,
        },
        TyParam::EnumSet(xs) => match b {
            TyParam::EnumSet(ys) => tp_vec_eq(xs, ys),
            _ => false,
        },
    }
}

/// Compares two predicates by their views.
pub fn pred_eq(a: &Pred, b: &Pred) -> (r: bool)
    ensures
        r == (a.deep() == b.deep()),
    decreases a,
{
    match a {
        Pred::Eq(v, p) => match b {
            Pred::Eq(w, q) => v.eq(w) && tp_eq(p, q),
            _ => false,
        },
        Pred::Le(v, p) => match b {
            Pred::Le(w, q) => v.eq(w) && tp_eq(p, q),
            _ => false,
        },
        Pred::Ge(v, p) => match b {
            Pred::Ge(w, q) => v.eq(w) && tp_eq(p, q),
            _ => false,
        },
        Pred::InSet(v, ps) => match b {
            Pred::InSet(w, qs) => v.eq(w) && tp_vec_eq(ps, qs),
            _ => false,
        },
    }
}

/// Compares two bounds by their views.
pub fn bound_eq(a: &TyBound, b: &TyBound) -> (r: bool)
    ensures
        r == (a.deep() == b.deep()),
    decreases a,
{
    match a {
        TyBound::Instance(v, t) => match b {
            TyBound::Instance(w, u) => v.eq(w) && ty_eq(t, u),
            _ => false,
        },
        TyBound::Subtype(v, t) => match b {
            TyBound::Subtype(w, u) => v.eq(w) && ty_eq(t, u),
            _ => false,
        },
    }
}

/// Compares two types by their views: structural equality with names
/// compared by contents.
pub fn ty_eq(a: &Ty, b: &Ty) -> (r: bool)
    ensures
        r == (a.deep() == b.deep()),
    decreases a,
{
    match a {
        Ty::Mono(x) => match b {
            Ty::Mono(y) => x.eq(y),
            _ => false,
        },
        Ty::Poly(x, ps) => match b {
            Ty::Poly(y, qs) => x.eq(y) && tp_vec_eq(ps, qs),
            _ => false,
        },
        Ty::Refinement(v, b1, p1) => match b {
            Ty::Refinement(w, b2, p2) => v.eq(w) && ty_eq(b1, b2) && pred_vec_eq(p1, p2),
            _ => false,
        },
        Ty::Quantified(bs1, t1) => match b {
            Ty::Quantified(bs2, t2) => bound_vec_eq(bs1, bs2) && ty_eq(t1, t2),
            _ => false,
        },
        Ty::And(l1, r1) => match b {
            Ty::And(l2, r2) => ty_eq(l1, l2) && ty_eq(r1, r2),
            _ => false,
        },
        Ty::Or(l1, r1) => match b {
            Ty::Or(l2, r2) => ty_eq(l1, l2) && ty_eq(r1, r2),
            _ => false,
        },
        Ty::Never => match b {
            Ty::Never => true,
            _ => false,
        },
    }
}


/// An array type of the given element type and declared length.
pub fn array_t(elem: Ty, len: TyParam) -> (r: Ty)
    ensures
        r.deep() == TyView::Poly(
            ("Array")@,
            seq![TpView::TyVal(Box::new(elem.deep())), len.deep()],
        ),
{
    let ps: Vec<TyParam> = vec![TyParam::TyVal(Box::new(elem)), len];
    proof {
        lemma_deep_tp_seq(ps@);
        assert(deep_tp_seq(ps@) =~= seq![ps@[0].deep(), ps@[1].deep()]);
    }
    Ty::Poly(("Array").to_owned(), ps)
}

/// An array type whose length is erased: any natural.
pub fn unknown_len_array_t(elem: Ty) -> (r: Ty)
    ensures
        r.deep() == TyView::Poly(
            ("Array")@,
            seq![
                TpView::TyVal(Box::new(elem.deep())),
                TpView::Erased(Box::new(TyView::Mono(("Nat")@))),
            ],
        ),
{
    let nat_name = ("Nat").to_owned();
    let inner = Ty::Mono(nat_name);
    proof {
        assert(inner.deep() == TyView::Mono(("Nat")@));
    }
    let len = TyParam::Erased(Box::new(inner));
    proof {
        assert(len.deep() == TpView::Erased(Box::new(TyView::Mono(("Nat")@))));
    }
    array_t(elem, len)
}

/// A set type of the given element type and declared size.
pub fn set_t(elem: Ty, len: TyParam) -> (r: Ty)
    ensures
        r.deep() == TyView::Poly(
            ("Set")@,
            seq![TpView::TyVal(Box::new(elem.deep())), len.deep()],
        ),
{
    let ps: Vec<TyParam> = vec![TyParam::TyVal(Box::new(elem)), len];
    proof {
        lemma_deep_tp_seq(ps@);
        assert(deep_tp_seq(ps@) =~= seq![ps@[0].deep(), ps@[1].deep()]);
    }
    Ty::Poly(("Set").to_owned(), ps)
}

/// A dictionary type of the given key and value types.
pub fn dict_t(k: Ty, v: Ty) -> (r: Ty)
    ensures
        r.deep() == TyView::Poly(
            ("Dict")@,
            seq![TpView::TyVal(Box::new(k.deep())), TpView::TyVal(Box::new(v.deep()))],
        ),
{
    let ps: Vec<TyParam> = vec![TyParam::TyVal(Box::new(k)), TyParam::TyVal(Box::new(v))];
    proof {
        lemma_deep_tp_seq(ps@);
        assert(deep_tp_seq(ps@) =~= seq![ps@[0].deep(), ps@[1].deep()]);
    }
    Ty::Poly(("Dict").to_owned(), ps)
}

/// A range type over the given element type.
pub fn range_t(t: Ty) -> (r: Ty)
    ensures
        r.deep() == TyView::Poly(("Range")@, seq![TpView::TyVal(Box::new(t.deep()))]),
{
    let ps: Vec<TyParam> = vec![TyParam::TyVal(Box::new(t))];
    proof {
        lemma_deep_tp_seq(ps@);
        assert(deep_tp_seq(ps@) =~= seq![ps@[0].deep()]);
    }
    Ty::Poly(("Range").to_owned(), ps)
}

/// A tuple type over the given element types.
pub fn tuple_t(elems: Vec<Ty>) -> (r: Ty)
    ensures
        r.deep() == TyView::Poly(("Tuple")@, tyval_params(elems@)),
{
    let ps = tyval_vec(&elems);
    Ty::Poly(("Tuple").to_owned(), ps)
}

/// Carries each type of a list as a type-valued parameter.
fn tyval_vec(ts: &Vec<Ty>) -> (r: Vec<TyParam>)
    ensures
        deep_tp_seq(r@) == tyval_params(ts@),
{
    proof {
        lemma_tyval_params(ts@);
    }
    let mut ps: Vec<TyParam> = Vec::new();
    let mut i: usize = 0;
    while i < ts.len()
        invariant
            i <= ts@.len(),
            ps@.len() == i,
            forall|j: int|
                0 <= j < i ==> (#[trigger] ps@[j]).deep() == TpView::TyVal(
                    Box::new(ts@[j].deep()),
                ),
        decreases ts@.len() - i,
    {
        ps.push(TyParam::TyVal(Box::new(ts[i].clone())));
        i = i + 1;
    }
    proof {
        lemma_deep_tp_seq(ps@);
        lemma_tyval_params(ts@);
        assert(deep_tp_seq(ps@) =~= tyval_params(ts@));
    }
    ps
}

/// Builds a subroutine type: an optional self type, the argument
/// types in order, and the return type, under the given head name.
/// Parameter keyword names are not carried in the type.
fn subr_t(head: &str, slf: Option<Ty>, args: Vec<Ty>, ret: Ty) -> (r: Ty)
    ensures
        r.deep() == TyView::Poly(
            head@,
            (match slf {
                Some(s) => seq![TpView::TyVal(Box::new(s.deep()))],
                None => Seq::empty(),
            }) + tyval_params(args@) + seq![TpView::TyVal(Box::new(ret.deep()))],
        ),
{
    let ghost slf_part: Seq<TpView> = match slf {
        Some(ref s) => seq![TpView::TyVal(Box::new(s.deep()))],
        None => Seq::empty(),
    };
    let mut ps: Vec<TyParam> = Vec::new();
    match slf {
        Some(s) => {
            ps.push(TyParam::TyVal(Box::new(s)));
        },
        None => {},
    }
    let mut rest = tyval_vec(&args);
    let ghost rest0 = rest@;
    let ghost mid = ps@;
    ps.append(&mut rest);
    let ghost ret_view = ret.deep();
    ps.push(TyParam::TyVal(Box::new(ret)));
    proof {
        assert(ps@ == (mid + rest0).push(ps@.last()));
        lemma_deep_tp_seq(ps@);
        lemma_deep_tp_seq(mid);
        lemma_deep_tp_seq(rest0);
        lemma_tyval_params(args@);
        assert(deep_tp_seq(mid) =~= slf_part);
        assert forall|i: int| 0 <= i < ps@.len() implies deep_tp_seq(ps@)[i] == (slf_part
            + tyval_params(args@) + seq![TpView::TyVal(Box::new(ret_view))])[i] by {
            if i < mid.len() {
                assert(ps@[i] == mid[i]);
            } else if i < mid.len() + rest0.len() {
                assert(ps@[i] == rest0[i - mid.len()]);
            }
        }
        assert(deep_tp_seq(ps@) =~= slf_part + tyval_params(args@) + seq![
            TpView::TyVal(Box::new(ret_view)),
        ]);
    }
    Ty::Poly(head.to_owned(), ps)
}

/// A method type with no arguments beyond `self`.
pub fn fn0_met(slf: Ty, ret: Ty) -> (r: Ty)
    ensures
        r.deep() == TyView::Poly(
            ("FnMethod")@,
            seq![
                TpView::TyVal(Box::new(slf.deep())),
                TpView::TyVal(Box::new(ret.deep())),
            ],
        ),
{
    let ps: Vec<TyParam> = vec![TyParam::TyVal(Box::new(slf)), TyParam::TyVal(Box::new(ret))];
    proof {
        lemma_deep_tp_seq(ps@);
        assert(deep_tp_seq(ps@) =~= seq![ps@[0].deep(), ps@[1].deep()]);
    }
    Ty::Poly(("FnMethod").to_owned(), ps)
}

/// A method type with one argument beyond `self`.
pub fn fn1_met(slf: Ty, arg: Ty, ret: Ty) -> (r: Ty)
    ensures
        r.deep() == TyView::Poly(
            ("FnMethod")@,
            seq![
                TpView::TyVal(Box::new(slf.deep())),
                TpView::TyVal(Box::new(arg.deep())),
                TpView::TyVal(Box::new(ret.deep())),
            ],
        ),
{
    let ps: Vec<TyParam> = vec![
        TyParam::TyVal(Box::new(slf)),
        TyParam::TyVal(Box::new(arg)),
        TyParam::TyVal(Box::new(ret)),
    ];
    proof {
        lemma_deep_tp_seq(ps@);
        assert(deep_tp_seq(ps@) =~= seq![ps@[0].deep(), ps@[1].deep(), ps@[2].deep()]);
    }
    Ty::Poly(("FnMethod").to_owned(), ps)
}

/// A method type with the given argument types beyond `self`.
pub fn fn_met(slf: Ty, args: Vec<Ty>, ret: Ty) -> (r: Ty)
    ensures
        r.deep() == TyView::Poly(
            ("FnMethod")@,
            seq![TpView::TyVal(Box::new(slf.deep()))] + tyval_params(args@) + seq![
                TpView::TyVal(Box::new(ret.deep())),
            ],
        ),
{
    subr_t("FnMethod", Some(slf), args, ret)
}

/// A function type with the given argument types.
pub fn nd_func(args: Vec<Ty>, ret: Ty) -> (r: Ty)
    ensures
        r.deep() == TyView::Poly(
            ("Fn")@,
            tyval_params(args@) + seq![TpView::TyVal(Box::new(ret.deep()))],
        ),
{
    let r = subr_t("Fn", None, args, ret);
    proof {
        assert(r.deep()->Poly_1 =~= tyval_params(args@) + seq![
            TpView::TyVal(Box::new(ret.deep())),
        ]);
    }
    r
}

/// A procedure type with the given argument types.
pub fn nd_proc(args: Vec<Ty>, ret: Ty) -> (r: Ty)
    ensures
        r.deep() == TyView::Poly(
            ("Proc")@,
            tyval_params(args@) + seq![TpView::TyVal(Box::new(ret.deep()))],
        ),
{
    let r = subr_t("Proc", None, args, ret);
    proof {
        assert(r.deep()->Poly_1 =~= tyval_params(args@) + seq![
            TpView::TyVal(Box::new(ret.deep())),
        ]);
    }
    r
}

/// A procedural method type with the given argument types.
pub fn pr_met(slf: Ty, args: Vec<Ty>, ret: Ty) -> (r: Ty)
    ensures
        r.deep() == TyView::Poly(
            ("ProcMethod")@,
            seq![TpView::TyVal(Box::new(slf.deep()))] + tyval_params(args@) + seq![
                TpView::TyVal(Box::new(ret.deep())),
            ],
        ),
{
    subr_t("ProcMethod", Some(slf), args, ret)
}

/// A finite enumeration type: values of `base` that are one of the
/// given values.
pub fn v_enum(base: Ty, vals: Vec<TyParam>) -> (r: Ty)
    ensures
        r.deep() == TyView::Refinement(
            ("x")@,
            Box::new(base.deep()),
            seq![PredView::InSet(("x")@, deep_tp_seq(vals@))],
        ),
{
    let ghost vals_view = deep_tp_seq(vals@);
    let preds: Vec<Pred> = vec![Pred::InSet(("x").to_owned(), vals)];
    proof {
        lemma_deep_pred_seq(preds@);
        assert(deep_pred_seq(preds@) =~= seq![PredView::InSet(("x")@, vals_view)]);
    }
    refinement("x", base, preds)
}

/// A closed integer interval as a refinement of `Int`.
pub fn interval(lo: u64, hi: u64) -> (r: Ty)
    ensures
        r.deep() == TyView::Refinement(
            ("I")@,
            Box::new(TyView::Mono(("Int")@)),
            seq![
                PredView::Ge(("I")@, TpView::NatLit(lo as nat)),
                PredView::Le(("I")@, TpView::NatLit(hi as nat)),
            ],
        ),
{
    let preds: Vec<Pred> = vec![
        Pred::Ge(("I").to_owned(), TyParam::NatLit(lo)),
        Pred::Le(("I").to_owned(), TyParam::NatLit(hi)),
    ];
    proof {
        lemma_deep_pred_seq(preds@);
        assert(deep_pred_seq(preds@) =~= seq![
            PredView::Ge(("I")@, TpView::NatLit(lo as nat)),
            PredView::Le(("I")@, TpView::NatLit(hi as nat)),
        ]);
    }
    refinement("I", Ty::Mono(("Int").to_owned()), preds)
}

} // verus!
