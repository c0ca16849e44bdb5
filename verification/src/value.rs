//! The value domain of the const-expression evaluator: natural
//! numbers, strings, booleans, arrays, dictionaries, named-field
//! records, constant subroutines and first-class types, plus the
//! argument bag (`ValueArgs`) consumed by const functions.

use vstd::prelude::*;

use crate::ty::Ty;
use crate::ty::TyView;

verus! {

/// What kind of descriptor a class/trait constructor produced.
#[derive(Debug, Clone, Copy, PartialEq, Eq, Structural)]
pub enum GenKind {
    /// A fresh nominal class.
    Class,
    /// A subclass of an existing class.
    Inherited,
    /// A fresh trait.
    Trait,
    /// A trait subsuming an existing trait.
    Subsumed,
}

/// A constructed class or trait descriptor: its kind, nominal type,
/// requirement (or superclass) type, and optional impl/additional
/// types. Never mutated after the call that built it, except for the
/// single `inheritable` rewrite of its impl slot.
#[derive(Debug)]
pub struct GenTypeObj {
    pub kind: GenKind,
    pub t: Ty,
    pub require_or_sup: Box<TypeObj>,
    pub impls: Option<Box<TypeObj>>,
    pub additional: Option<Box<TypeObj>>,
}

/// A first-class type value: either a builtin type or a generated
/// descriptor.
#[derive(Debug)]
pub enum TypeObj {
    Builtin(Ty),
    Generated(GenTypeObj),
}

/// A constant subroutine, named; builtin ones are dispatched by name
/// through the const-function catalogue.
#[derive(Debug)]
pub enum ConstSubr {
    Builtin(String),
    UserDefined(String),
}

/// A compile-time value.
#[derive(Debug)]
pub enum ValueObj {
    /// A natural number.
    Nat(u64),
    /// A string.
    Str(String),
    /// A boolean.
    Bool(bool),
    /// An array of values.
    Array(Vec<ValueObj>),
    /// A dictionary; key uniqueness is enforced at construction by its
    /// users, and lookup may fall back to subtype-compatible key
    /// matching for type-keyed dictionaries.
    Dict(Vec<(ValueObj, ValueObj)>),
    /// A named-fields record.
    DataClass { name: String, fields: Vec<(String, ValueObj)> },
    /// A constant subroutine.
    Subr(ConstSubr),
    /// A first-class type.
    Type(TypeObj),
}

/// Mathematical view of a `GenTypeObj`.
pub struct GenView {
    pub kind: GenKind,
    pub t: TyView,
    pub require_or_sup: Box<TypeObjView>,
    pub impls: Option<Box<TypeObjView>>,
    pub additional: Option<Box<TypeObjView>>,
}

/// Mathematical view of a `TypeObj`.
pub enum TypeObjView {
    Builtin(TyView),
    Generated(GenView),
}

/// Mathematical view of a `ConstSubr`.
pub enum SubrView {
    Builtin(Seq<char>),
    UserDefined(Seq<char>),
}

/// Mathematical view of a `ValueObj`.
pub enum VView {
    Nat(nat),
    Str(Seq<char>),
    Bool(bool),
    Array(Seq<VView>),
    Dict(Seq<(VView, VView)>),
    DataClass(Seq<char>, Seq<(Seq<char>, VView)>),
    Subr(SubrView),
    Type(TypeObjView),
}

impl GenTypeObj {
    /// The view of this descriptor.
    pub open spec fn deep(self) -> GenView
        decreases self,
    {
        GenView {
            kind: self.kind,
            t: self.t.deep(),
            require_or_sup: Box::new(self.require_or_sup.deep()),
            impls: match self.impls {
                Some(b) => Some(Box::new(b.deep())),
                None => None,
            },
            additional: match self.additional {
                Some(b) => Some(Box::new(b.deep())),
                None => None,
            },
        }
    }
}

impl TypeObj {
    /// The view of this type value.
    pub open spec fn deep(self) -> TypeObjView
        decreases self,
    {
        match self {
            TypeObj::Builtin(t) => TypeObjView::Builtin(t.deep()),
            TypeObj::Generated(g) => TypeObjView::Generated(g.deep()),
        }
    }

    /// The nominal type this value denotes: the builtin type itself,
    /// or a generated descriptor's nominal type.
    pub open spec fn typ_view(self) -> TyView {
        match self {
            TypeObj::Builtin(t) => t.deep(),
            TypeObj::Generated(g) => g.t.deep(),
        }
    }

    /// The nominal type this value denotes.
    pub fn typ(&self) -> (r: &Ty)
        ensures
            r.deep() == self.typ_view(),
    {
        match self {
            TypeObj::Builtin(t) => t,
            TypeObj::Generated(g) => &g.t,
        }
    }
}

impl ConstSubr {
    /// The view of this subroutine.
    pub open spec fn deep(self) -> SubrView {
        match self {
            ConstSubr::Builtin(n) => SubrView::Builtin(n@),
            ConstSubr::UserDefined(n) => SubrView::UserDefined(n@),
        }
    }
}

impl ValueObj {
    /// The view of this value.
    pub open spec fn deep(self) -> VView
        decreases self,
    {
        match self {
            ValueObj::Nat(n) => VView::Nat(n as nat),
            ValueObj::Str(s) => VView::Str(s@),
            ValueObj::Bool(b) => VView::Bool(b),
            ValueObj::Array(vs) => VView::Array(deep_v_seq(vs@)),
            ValueObj::Dict(kvs) => VView::Dict(deep_vpair_seq(kvs@)),
            ValueObj::DataClass { name, fields } => VView::DataClass(
                name@,
                deep_field_seq(fields@),
            ),
            ValueObj::Subr(s) => VView::Subr(s.deep()),
            ValueObj::Type(t) => VView::Type(t.deep()),
        }
    }

    /// Wraps a generated descriptor as a value.
    pub fn gen_t(gen: GenTypeObj) -> (r: ValueObj)
        ensures
            r.deep() == VView::Type(TypeObjView::Generated(gen.deep())),
    {
        ValueObj::Type(TypeObj::Generated(gen))
    }

    /// Wraps a builtin type as a value.
    pub fn builtin_t(t: Ty) -> (r: ValueObj)
        ensures
            r.deep() == VView::Type(TypeObjView::Builtin(t.deep())),
    {
        ValueObj::Type(TypeObj::Builtin(t))
    }

    /// Extracts the type this value denotes, if it is one.
    pub fn as_type(self) -> (r: Option<TypeObj>)
        ensures
            match r {
                Some(t) => self.deep() == VView::Type(t.deep()),
                None => forall|t: TypeObjView| self.deep() != VView::Type(t),
            },
    {
        match self {
            ValueObj::Type(t) => Some(t),
            _ => None,
        }
    }
}

/// The elementwise view of a value sequence.
pub open spec fn deep_v_seq(vs: Seq<ValueObj>) -> Seq<VView>
    decreases vs,
{
    if vs.len() == 0 {
        Seq::empty()
    } else {
        deep_v_seq(vs.drop_last()).push(vs.last().deep())
    }
}

/// The elementwise view of a key-value pair sequence.
pub open spec fn deep_vpair_seq(vs: Seq<(ValueObj, ValueObj)>) -> Seq<(VView, VView)>
    decreases vs,
{
    if vs.len() == 0 {
        Seq::empty()
    } else {
        deep_vpair_seq(vs.drop_last()).push((vs.last().0.deep(), vs.last().1.deep()))
    }
}

/// The elementwise view of a named-field sequence.
pub open spec fn deep_field_seq(vs: Seq<(String, ValueObj)>) -> Seq<(Seq<char>, VView)>
    decreases vs,
{
    if vs.len() == 0 {
        Seq::empty()
    } else {
        deep_field_seq(vs.drop_last()).push((vs.last().0@, vs.last().1.deep()))
    }
}

/// `deep_v_seq` is the elementwise image of `ValueObj::deep`.
pub broadcast proof fn lemma_deep_v_seq(vs: Seq<ValueObj>)
    ensures
        (#[trigger] deep_v_seq(vs)).len() == vs.len(),
        forall|i: int| 0 <= i < vs.len() ==> deep_v_seq(vs)[i] == vs[i].deep(),
    decreases vs.len(),
{
    if vs.len() > 0 {
        lemma_deep_v_seq(vs.drop_last());
    }
}

/// `deep_vpair_seq` is the elementwise image of the pairwise view.
pub broadcast proof fn lemma_deep_vpair_seq(vs: Seq<(ValueObj, ValueObj)>)
    ensures
        (#[trigger] deep_vpair_seq(vs)).len() == vs.len(),
        forall|i: int|
            0 <= i < vs.len() ==> deep_vpair_seq(vs)[i] == (vs[i].0.deep(), vs[i].1.deep()),
    decreases vs.len(),
{
    if vs.len() > 0 {
        lemma_deep_vpair_seq(vs.drop_last());
    }
}

/// `deep_field_seq` is the elementwise image of the fieldwise view.
pub broadcast proof fn lemma_deep_field_seq(vs: Seq<(String, ValueObj)>)
    ensures
        (#[trigger] deep_field_seq(vs)).len() == vs.len(),
        forall|i: int|
            0 <= i < vs.len() ==> deep_field_seq(vs)[i] == (vs[i].0@, vs[i].1.deep()),
    decreases vs.len(),
{
    if vs.len() > 0 {
        lemma_deep_field_seq(vs.drop_last());
    }
}

/// Compares two value lists by their views.
fn v_vec_eq(xs: &Vec<ValueObj>, ys: &Vec<ValueObj>) -> (r: bool)
    ensures
        r == (deep_v_seq(xs@) == deep_v_seq(ys@)),
    decreases xs,
{
    proof {
        lemma_deep_v_seq(xs@);
        lemma_deep_v_seq(ys@);
    }
    if xs.len() != ys.len() {
        return false;
    }
    let mut i: usize = 0;
    while i < xs.len()
        invariant
            i <= xs@.len(),
            xs@.len() == ys@.len(),
            forall|j: int| 0 <= j < i ==> (#[trigger] xs@[j].deep()) == ys@[j].deep(),
        decreases xs@.len() - i,
    {
        if !value_eq(&xs[i], &ys[i]) {
            proof {
                lemma_deep_v_seq(xs@);
                lemma_deep_v_seq(ys@);
                assert(deep_v_seq(xs@)[i as int] == xs@[i as int].deep());
                assert(deep_v_seq(ys@)[i as int] == ys@[i as int].deep());
            }
            return false;
        }
        i = i + 1;
    }
    proof {
        lemma_deep_v_seq(xs@);
        lemma_deep_v_seq(ys@);
        assert(deep_v_seq(xs@) =~= deep_v_seq(ys@));
    }
    true
}

/// Compares two key-value pair lists by their views.
fn vpair_vec_eq(xs: &Vec<(ValueObj, ValueObj)>, ys: &Vec<(ValueObj, ValueObj)>) -> (r: bool)
    ensures
        r == (deep_vpair_seq(xs@) == deep_vpair_seq(ys@)),
    decreases xs,
{
    proof {
        lemma_deep_vpair_seq(xs@);
        lemma_deep_vpair_seq(ys@);
    }
    if xs.len() != ys.len() {
        return false;
    }
    let mut i: usize = 0;
    while i < xs.len()
        invariant
            i <= xs@.len(),
            xs@.len() == ys@.len(),
            forall|j: int|
                0 <= j < i ==> (#[trigger] xs@[j].0.deep()) == ys@[j].0.deep()
                    && xs@[j].1.deep() == ys@[j].1.deep(),
        decreases xs@.len() - i,
    {
        if !value_eq(&xs[i].0, &ys[i].0) || !value_eq(&xs[i].1, &ys[i].1) {
            proof {
                lemma_deep_vpair_seq(xs@);
                lemma_deep_vpair_seq(ys@);
                assert(deep_vpair_seq(xs@)[i as int] == (
                    xs@[i as int].0.deep(),
                    xs@[i as int].1.deep(),
                ));
                assert(deep_vpair_seq(ys@)[i as int] == (
                    ys@[i as int].0.deep(),
                    ys@[i as int].1.deep(),
                ));
            }
            return false;
        }
        i = i + 1;
    }
    proof {
        lemma_deep_vpair_seq(xs@);
        lemma_deep_vpair_seq(ys@);
        assert(deep_vpair_seq(xs@) =~= deep_vpair_seq(ys@));
    }
    true
}

/// Compares two named-field lists by their views.
fn field_vec_eq(xs: &Vec<(String, ValueObj)>, ys: &Vec<(String, ValueObj)>) -> (r: bool)
    ensures
        r == (deep_field_seq(xs@) == deep_field_seq(ys@)),
    decreases xs,
{
    proof {
        lemma_deep_field_seq(xs@);
        lemma_deep_field_seq(ys@);
    }
    if xs.len() != ys.len() {
        return false;
    }
    let mut i: usize = 0;
    while i < xs.len()
        invariant
            i <= xs@.len(),
            xs@.len() == ys@.len(),
            forall|j: int|
                #![trigger xs@[j]]
                0 <= j < i ==> xs@[j].0@ == ys@[j].0@ && xs@[j].1.deep() == ys@[j].1.deep(),
        decreases xs@.len() - i,
    {
        if !xs[i].0.eq(&ys[i].0) || !value_eq(&xs[i].1, &ys[i].1) {
            proof {
                lemma_deep_field_seq(xs@);
                lemma_deep_field_seq(ys@);
                assert(deep_field_seq(xs@)[i as int] == (
                    xs@[i as int].0@,
                    xs@[i as int].1.deep(),
                ));
                assert(deep_field_seq(ys@)[i as int] == (
                    ys@[i as int].0@,
                    ys@[i as int].1.deep(),
                ));
            }
            return false;
        }
        i = i + 1;
    }
    proof {
        lemma_deep_field_seq(xs@);
        lemma_deep_field_seq(ys@);
        assert(deep_field_seq(xs@) =~= deep_field_seq(ys@));
    }
    true
}

/// Compares two optional type values by their views.
fn opt_type_obj_eq(a: &Option<Box<TypeObj>>, b: &Option<Box<TypeObj>>) -> (r: bool)
    ensures
        r == (match (a, b) {
            (Some(x), Some(y)) => x.deep() == y.deep(),
            (None, None) => true,
            _ => false,
        }),
    decreases a,
{
    match (a, b) {
        (Some(x), Some(y)) => type_obj_eq(x, y),
        (None, None) => true,
        _ => false,
    }
}

/// Compares two generated descriptors by their views.
pub fn gen_type_obj_eq(a: &GenTypeObj, b: &GenTypeObj) -> (r: bool)
    ensures
        r == (a.deep() == b.deep()),
    decreases a,
{
    let kind_ok = a.kind == b.kind;
    kind_ok && crate::ty::ty_eq(&a.t, &b.t) && type_obj_eq(&a.require_or_sup, &b.require_or_sup)
        && opt_type_obj_eq(&a.impls, &b.impls) && opt_type_obj_eq(&a.additional, &b.additional)
}

/// Compares two type values by their views.
pub fn type_obj_eq(a: &TypeObj, b: &TypeObj) -> (r: bool)
    ensures
        r == (a.deep() == b.deep()),
    decreases a,
{
    match a {
        TypeObj::Builtin(t) => match b {
            TypeObj::Builtin(u) => crate::ty::ty_eq(t, u),
            _ => false,
        },
        TypeObj::Generated(g) => match b {
            TypeObj::Generated(h) => gen_type_obj_eq(g, h),
            _ => false,
        },
    }
}

/// Compares two constant subroutines by their views.
pub fn subr_eq(a: &ConstSubr, b: &ConstSubr) -> (r: bool)
    ensures
        r == (a.deep() == b.deep()),
{
    match a {
        ConstSubr::Builtin(x) => match b {
            ConstSubr::Builtin(y) => x.eq(y),
            _ => false,
        },
        ConstSubr::UserDefined(x) => match b {
            ConstSubr::UserDefined(y) => x.eq(y),
            _ => false,
        },
    }
}

/// Compares two values by their views: structural equality with
/// strings compared by contents.
pub fn value_eq(a: &ValueObj, b: &ValueObj) -> (r: bool)
    ensures
        r == (a.deep() == b.deep()),
    decreases a,
{
    match a {
        ValueObj::Nat(x) => match b {
            ValueObj::Nat(y) => *x == *y,
            _ => false,
        },
        ValueObj::Str(x) => match b {
            ValueObj::Str(y) => x.eq(y),
            _ => false,
        },
        ValueObj::Bool(x) => match b {
            ValueObj::Bool(y) => *x == *y,
            _ => false,
        },
        ValueObj::Array(xs) => match b {
            ValueObj::Array(ys) => v_vec_eq(xs, ys),
            _ => false,
        },
        ValueObj::Dict(xs) => match b {
            ValueObj::Dict(ys) => vpair_vec_eq(xs, ys),
            _ => false,
        },
        ValueObj::DataClass { name: xn, fields: xf } => match b {
            ValueObj::DataClass { name: yn, fields: yf } => xn.eq(yn) && field_vec_eq(xf, yf),
            _ => false,
        },
        ValueObj::Subr(x) => match b {
            ValueObj::Subr(y) => subr_eq(x, y),
            _ => false,
        },
        ValueObj::Type(x) => match b {
            ValueObj::Type(y) => type_obj_eq(x, y),
            _ => false,
        },
    }
}

/// Clones a value list, preserving each element's view.
fn clone_v_vec(vs: &Vec<ValueObj>) -> (r: Vec<ValueObj>)
    ensures
        r@.len() == vs@.len(),
        forall|i: int| 0 <= i < vs@.len() ==> (#[trigger] r@[i]).deep() == vs@[i].deep(),
    decreases vs,
{
    let mut out: Vec<ValueObj> = Vec::new();
    let mut i: usize = 0;
    while i < vs.len()
        invariant
            i <= vs@.len(),
            out@.len() == i,
            forall|j: int| 0 <= j < i ==> (#[trigger] out@[j]).deep() == vs@[j].deep(),
        decreases vs@.len() - i,
    {
        out.push(vs[i].clone());
        i = i + 1;
    }
    out
}

/// Clones a key-value pair list, preserving each pair's views.
fn clone_vpair_vec(vs: &Vec<(ValueObj, ValueObj)>) -> (r: Vec<(ValueObj, ValueObj)>)
    ensures
        r@.len() == vs@.len(),
        forall|i: int|
            0 <= i < vs@.len() ==> (#[trigger] r@[i].0.deep()) == vs@[i].0.deep()
                && r@[i].1.deep() == vs@[i].1.deep(),
    decreases vs,
{
    let mut out: Vec<(ValueObj, ValueObj)> = Vec::new();
    let mut i: usize = 0;
    while i < vs.len()
        invariant
            i <= vs@.len(),
            out@.len() == i,
            forall|j: int|
                0 <= j < i ==> (#[trigger] out@[j].0.deep()) == vs@[j].0.deep()
                    && out@[j].1.deep() == vs@[j].1.deep(),
        decreases vs@.len() - i,
    {
        out.push((vs[i].0.clone(), vs[i].1.clone()));
        i = i + 1;
    }
    out
}

/// Clones a named-field list, preserving each field's views.
fn clone_field_vec(vs: &Vec<(String, ValueObj)>) -> (r: Vec<(String, ValueObj)>)
    ensures
        r@.len() == vs@.len(),
        forall|i: int|
            0 <= i < vs@.len() ==> (#[trigger] r@[i].0@) == vs@[i].0@ && r@[i].1.deep()
                == vs@[i].1.deep(),
    decreases vs,
{
    let mut out: Vec<(String, ValueObj)> = Vec::new();
    let mut i: usize = 0;
    while i < vs.len()
        invariant
            i <= vs@.len(),
            out@.len() == i,
            forall|j: int|
                0 <= j < i ==> (#[trigger] out@[j].0@) == vs@[j].0@ && out@[j].1.deep()
                    == vs@[j].1.deep(),
        decreases vs@.len() - i,
    {
        out.push((vs[i].0.clone(), vs[i].1.clone()));
        i = i + 1;
    }
    out
}

impl Clone for GenTypeObj {
    /// Clones the descriptor; the view is unchanged.
    fn clone(&self) -> (r: GenTypeObj)
        ensures
            r.deep() == self.deep(),
        decreases self,
    {
        GenTypeObj {
            kind: self.kind,
            t: self.t.clone(),
            require_or_sup: Box::new((*self.require_or_sup).clone()),
            impls: match &self.impls {
                Some(b) => Some(Box::new((**b).clone())),
                None => None,
            },
            additional: match &self.additional {
                Some(b) => Some(Box::new((**b).clone())),
                None => None,
            },
        }
    }
}

impl Clone for TypeObj {
    /// Clones the type value; the view is unchanged.
    fn clone(&self) -> (r: TypeObj)
        ensures
            r.deep() == self.deep(),
        decreases self,
    {
        match self {
            TypeObj::Builtin(t) => TypeObj::Builtin(t.clone()),
            TypeObj::Generated(g) => TypeObj::Generated(g.clone()),
        }
    }
}

impl Clone for ConstSubr {
    /// Clones the subroutine; the view is unchanged.
    fn clone(&self) -> (r: ConstSubr)
        ensures
            r.deep() == self.deep(),
    {
        match self {
            ConstSubr::Builtin(n) => ConstSubr::Builtin(n.clone()),
            ConstSubr::UserDefined(n) => ConstSubr::UserDefined(n.clone()),
        }
    }
}

impl Clone for ValueObj {
    /// Clones the value; the view is unchanged.
    fn clone(&self) -> (r: ValueObj)
        ensures
            r.deep() == self.deep(),
        decreases self,
    {
        match self {
            ValueObj::Nat(n) => ValueObj::Nat(*n),
            ValueObj::Str(s) => ValueObj::Str(s.clone()),
            ValueObj::Bool(b) => ValueObj::Bool(*b),
            ValueObj::Array(vs) => {
                let cs = clone_v_vec(vs);
                proof {
                    lemma_deep_v_seq(cs@);
                    lemma_deep_v_seq(vs@);
                    assert(deep_v_seq(cs@) =~= deep_v_seq(vs@));
                }
                ValueObj::Array(cs)
            },
            ValueObj::Dict(kvs) => {
                let cs = clone_vpair_vec(kvs);
                proof {
                    lemma_deep_vpair_seq(cs@);
                    lemma_deep_vpair_seq(kvs@);
                    assert(deep_vpair_seq(cs@) =~= deep_vpair_seq(kvs@));
                }
                ValueObj::Dict(cs)
            },
            ValueObj::DataClass { name, fields } => {
                let cs = clone_field_vec(fields);
                proof {
                    lemma_deep_field_seq(cs@);
                    lemma_deep_field_seq(fields@);
                    assert(deep_field_seq(cs@) =~= deep_field_seq(fields@));
                }
                ValueObj::DataClass { name: name.clone(), fields: cs }
            },
            ValueObj::Subr(s) => ValueObj::Subr(s.clone()),
            ValueObj::Type(t) => ValueObj::Type(t.clone()),
        }
    }
}

/// An ordered/keyed argument list consumed left-to-right by position
/// or by name; each const function removes the arguments it needs.
#[derive(Debug)]
pub struct ValueArgs {
    pub pos_args: Vec<ValueObj>,
    pub kw_args: Vec<(String, ValueObj)>,
}

impl ValueArgs {
    /// The views of the positional arguments.
    pub open spec fn pos_view(self) -> Seq<VView> {
        deep_v_seq(self.pos_args@)
    }

    /// The views of the keyword arguments.
    pub open spec fn kw_view(self) -> Seq<(Seq<char>, VView)> {
        deep_field_seq(self.kw_args@)
    }

    /// Builds an argument list.
    pub fn new(pos_args: Vec<ValueObj>, kw_args: Vec<(String, ValueObj)>) -> (r: ValueArgs)
        ensures
            r.pos_view() == deep_v_seq(pos_args@),
            r.kw_view() == deep_field_seq(kw_args@),
    {
        ValueArgs { pos_args, kw_args }
    }

    /// Takes the leftmost positional argument if any is left, else the
    /// first keyword argument under `name`; `None` when neither
    /// exists. The taken argument is removed from the list.
    pub fn remove_left_or_key(&mut self, name: &str) -> (r: Option<ValueObj>)
        ensures
            match r {
                Some(v) => taken(old(self).pos_view(), old(self).kw_view(), name@) == Some(
                    v.deep(),
                ),
                None => taken(old(self).pos_view(), old(self).kw_view(), name@) is None,
            },
            final(self).pos_view() == after_pos(old(self).pos_view()),
            final(self).kw_view() == after_kw(old(self).pos_view(), old(self).kw_view(), name@),
    {
        proof {
            lemma_deep_v_seq(self.pos_args@);
            lemma_deep_field_seq(self.kw_args@);
        }
        if self.pos_args.len() > 0 {
            let v = self.pos_args.remove(0);
            proof {
                lemma_deep_v_seq(self.pos_args@);
                lemma_deep_v_seq(old(self).pos_args@);
                assert(deep_v_seq(self.pos_args@) =~= deep_v_seq(old(self).pos_args@).remove(0));
            }
            return Some(v);
        }
        let ghost old_kws = self.kw_args@;
        let name_owned = name.to_owned();
        let mut i: usize = 0;
        while i < self.kw_args.len()
            invariant
                i <= self.kw_args@.len(),
                self.kw_args@ == old_kws,
                self.pos_args@ == old(self).pos_args@,
                self.pos_args@.len() == 0,
                old_kws == old(self).kw_args@,
                name_owned@ == name@,
                forall|j: int| 0 <= j < i ==> (#[trigger] old_kws[j]).0@ != name@,
            decreases self.kw_args@.len() - i,
        {
            if self.kw_args[i].0.eq(&name_owned) {
                proof {
                    lemma_deep_field_seq(old_kws);
                    lemma_deep_v_seq(self.pos_args@);
                    lemma_kw_first_unique(
                        deep_field_seq(old_kws),
                        name@,
                        i as int,
                    );
                }
                let (_k, v) = self.kw_args.remove(i);
                proof {
                    lemma_deep_field_seq(self.kw_args@);
                    lemma_deep_field_seq(old_kws);
                    assert(deep_field_seq(self.kw_args@) =~= deep_field_seq(old_kws).remove(
                        i as int,
                    ));
                }
                return Some(v);
            }
            i = i + 1;
        }
        proof {
            lemma_deep_field_seq(self.kw_args@);
            lemma_deep_v_seq(self.pos_args@);
            lemma_kw_first(deep_field_seq(old_kws), name@, 0);
        }
        None
    }
}

/// First keyword entry at or after `k` whose name is `n`.
pub open spec fn kw_first_from(kws: Seq<(Seq<char>, VView)>, n: Seq<char>, k: int) -> Option<int>
    decreases kws.len() - k,
{
    if k < 0 || k >= kws.len() {
        None
    } else if kws[k].0 == n {
        Some(k)
    } else {
        kw_first_from(kws, n, k + 1)
    }
}

/// First keyword entry whose name is `n`.
pub open spec fn kw_first(kws: Seq<(Seq<char>, VView)>, n: Seq<char>) -> Option<int> {
    kw_first_from(kws, n, 0)
}

/// Characterizes `kw_first_from`.
pub proof fn lemma_kw_first(kws: Seq<(Seq<char>, VView)>, n: Seq<char>, k: int)
    requires
        0 <= k <= kws.len(),
    ensures
        match kw_first_from(kws, n, k) {
            Some(l) => {
                &&& k <= l < kws.len()
                &&& kws[l].0 == n
                &&& forall|j: int| k <= j < l ==> (#[trigger] kws[j]).0 != n
            },
            None => forall|j: int| k <= j < kws.len() ==> (#[trigger] kws[j]).0 != n,
        },
    decreases kws.len() - k,
{
    if k < kws.len() && kws[k].0 != n {
        lemma_kw_first(kws, n, k + 1);
    }
}

/// A first match determines `kw_first`.
pub proof fn lemma_kw_first_unique(kws: Seq<(Seq<char>, VView)>, n: Seq<char>, idx: int)
    requires
        0 <= idx < kws.len(),
        kws[idx].0 == n,
        forall|j: int| 0 <= j < idx ==> (#[trigger] kws[j]).0 != n,
    ensures
        kw_first(kws, n) == Some(idx),
{
    lemma_kw_first(kws, n, 0);
    match kw_first(kws, n) {
        Some(l) => {
            if l < idx {
                assert(kws[l].0 != n);
            }
            if idx < l {
                assert(kws[idx].0 != n);
            }
        },
        None => {
            assert(kws[idx].0 != n);
        },
    }
}

/// The argument an evaluator takes for `name`: the leftmost
/// positional argument, else the first keyword argument so named.
pub open spec fn taken(
    pos: Seq<VView>,
    kws: Seq<(Seq<char>, VView)>,
    name: Seq<char>,
) -> Option<VView> {
    if pos.len() > 0 {
        Some(pos[0])
    } else {
        match kw_first(kws, name) {
            Some(k) => Some(kws[k].1),
            None => None,
        }
    }
}

/// The positional arguments left after a take.
pub open spec fn after_pos(pos: Seq<VView>) -> Seq<VView> {
    if pos.len() > 0 {
        pos.remove(0)
    } else {
        pos
    }
}

/// The keyword arguments left after a take.
pub open spec fn after_kw(
    pos: Seq<VView>,
    kws: Seq<(Seq<char>, VView)>,
    name: Seq<char>,
) -> Seq<(Seq<char>, VView)> {
    if pos.len() > 0 {
        kws
    } else {
        match kw_first(kws, name) {
            Some(k) => kws.remove(k),
            None => kws,
        }
    }
}


} // verus!
