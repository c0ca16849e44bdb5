//! Populates the universe with every builtin class and the edges
//! between them, in dependency order: superclass before subclass,
//! trait before first use. Runs once at startup; the universe is a
//! read-only query surface afterward.

use vstd::prelude::*;

use crate::ty::Ty;
use crate::ty::TyParam;
use crate::ty::TyView;
use crate::ty::TpView;
use crate::ty::PredView;
use crate::ty::array_t;
use crate::ty::dict_t;
use crate::ty::fn0_met;
use crate::ty::fn1_met;
use crate::ty::fn_met;
use crate::ty::interval;
use crate::ty::mono;
use crate::ty::nd_func;
use crate::ty::nd_proc;
use crate::ty::or;
use crate::ty::poly;
use crate::ty::pr_met;
use crate::ty::quantify;
use crate::ty::range_t;
use crate::ty::ref_mut_t;
use crate::ty::refinement;
use crate::ty::set_t;
use crate::ty::tp_add;
use crate::ty::tp_sub;
use crate::ty::ty_tp;
use crate::ty::tuple_t;
use crate::ty::unknown_len_array_t;
use crate::ty::v_enum;
use crate::ty::var_tp;
use crate::universe::MethodTable;
use crate::universe::Mutability;
use crate::universe::ParamSpec;
use crate::universe::TypeUniverse;
use crate::universe::Visibility;
use crate::value::ConstSubr;
use crate::value::ValueObj;

verus! {

/// Arena indices of the core nominal classes, shared between the
/// builder's phases.
pub struct CoreClasses {
    pub never: usize,
    pub obj: usize,
    pub float: usize,
    pub ratio: usize,
    pub int_cls: usize,
    pub nat_cls: usize,
    pub bool_cls: usize,
    pub str_cls: usize,
    pub none_cls: usize,
    pub type_cls: usize,
    pub class_type: usize,
    pub trait_type: usize,
    pub code: usize,
}

/// The `T` element parameter as a carried type.
pub open spec fn t_param_view() -> TpView {
    TpView::TyVal(Box::new(TyView::Mono(("T")@)))
}

/// The view of `Array(T, len)`.
pub open spec fn arr_len_view(len: TpView) -> TyView {
    TyView::Poly(("Array")@, seq![t_param_view(), len])
}

/// The view of `Array!(T, len)`.
pub open spec fn arr_mut_len_view(len: TpView) -> TyView {
    TyView::Poly(("Array!")@, seq![t_param_view(), len])
}

/// The quantified length variable `N`.
pub open spec fn n_var() -> TpView {
    TpView::Var(("N")@)
}

/// The quantified length variable `M`.
pub open spec fn m_var() -> TpView {
    TpView::Var(("M")@)
}

/// The declared type of `Array.concat`:
/// `(self: [T; N], rhs: [T; M]) -> [T; N + M]`.
pub open spec fn concat_sig_view() -> TyView {
    TyView::Quantified(
        Seq::empty(),
        Box::new(
            TyView::Poly(
                ("FnMethod")@,
                seq![
                    TpView::TyVal(Box::new(arr_len_view(n_var()))),
                    TpView::TyVal(Box::new(arr_len_view(m_var()))),
                    TpView::TyVal(
                        Box::new(
                            arr_len_view(TpView::Add(Box::new(n_var()), Box::new(m_var()))),
                        ),
                    ),
                ],
            ),
        ),
    )
}

/// The declared type of `Array.push`:
/// `(self: [T; N], elem: T) -> [T; N + 1]`.
pub open spec fn push_sig_view() -> TyView {
    TyView::Quantified(
        Seq::empty(),
        Box::new(
            TyView::Poly(
                ("FnMethod")@,
                seq![
                    TpView::TyVal(Box::new(arr_len_view(n_var()))),
                    TpView::TyVal(Box::new(TyView::Mono(("T")@))),
                    TpView::TyVal(
                        Box::new(
                            arr_len_view(
                                TpView::Add(Box::new(n_var()), Box::new(TpView::NatLit(1))),
                            ),
                        ),
                    ),
                ],
            ),
        ),
    )
}

/// The declared index type of array indexing: `{I: Nat | I <= N - 1}`.
pub open spec fn getitem_index_view() -> TyView {
    TyView::Refinement(
        ("I")@,
        Box::new(TyView::Mono(("Nat")@)),
        seq![
            PredView::Le(
                ("I")@,
                TpView::Sub(Box::new(n_var()), Box::new(TpView::NatLit(1))),
            ),
        ],
    )
}

/// The declared type of `Array.__getitem__`:
/// `(self: [T; N], index: {I: Nat | I <= N - 1}) -> T`.
pub open spec fn getitem_sig_view() -> TyView {
    TyView::Quantified(
        Seq::empty(),
        Box::new(
            TyView::Poly(
                ("FnMethod")@,
                seq![
                    TpView::TyVal(Box::new(arr_len_view(n_var()))),
                    TpView::TyVal(Box::new(getitem_index_view())),
                    TpView::TyVal(Box::new(TyView::Mono(("T")@))),
                ],
            ),
        ),
    )
}

/// The declared type of `Array!.push!`:
/// `(ref self: [T; N]! ~> [T; N + 1]!, elem: T) => NoneType`.
pub open spec fn push_mut_sig_view() -> TyView {
    TyView::Quantified(
        Seq::empty(),
        Box::new(
            TyView::Poly(
                ("ProcMethod")@,
                seq![
                    TpView::TyVal(
                        Box::new(
                            TyView::Poly(
                                ("RefMut")@,
                                seq![
                                    TpView::TyVal(Box::new(arr_mut_len_view(n_var()))),
                                    TpView::TyVal(
                                        Box::new(
                                            arr_mut_len_view(
                                                TpView::Add(
                                                    Box::new(n_var()),
                                                    Box::new(TpView::NatLit(1)),
                                                ),
                                            ),
                                        ),
                                    ),
                                ],
                            ),
                        ),
                    ),
                    TpView::TyVal(Box::new(TyView::Mono(("T")@))),
                    TpView::TyVal(Box::new(TyView::Mono(("NoneType")@))),
                ],
            ),
        ),
    )
}

/// The declared type of `Array!.pop!`:
/// `(ref self: [T; N]! ~> [T; N - 1]!) => T`.
pub open spec fn pop_mut_sig_view() -> TyView {
    TyView::Quantified(
        Seq::empty(),
        Box::new(
            TyView::Poly(
                ("ProcMethod")@,
                seq![
                    TpView::TyVal(
                        Box::new(
                            TyView::Poly(
                                ("RefMut")@,
                                seq![
                                    TpView::TyVal(Box::new(arr_mut_len_view(n_var()))),
                                    TpView::TyVal(
                                        Box::new(
                                            arr_mut_len_view(
                                                TpView::Sub(
                                                    Box::new(n_var()),
                                                    Box::new(TpView::NatLit(1)),
                                                ),
                                            ),
                                        ),
                                    ),
                                ],
                            ),
                        ),
                    ),
                    TpView::TyVal(Box::new(TyView::Mono(("T")@))),
                ],
            ),
        ),
    )
}

/// A method table holds an entry of the given name and declared type.
pub open spec fn has_method_sig(
    ms: Seq<crate::universe::MethodEntry>,
    n: Seq<char>,
    v: TyView,
) -> bool {
    exists|k: int| 0 <= k < ms.len() && (#[trigger] ms[k]).name@ == n && ms[k].sig.deep() == v
}

/// A constant table holds a builtin subroutine of the given name.
pub open spec fn has_const_subr(
    es: Seq<crate::universe::ConstEntry>,
    n: Seq<char>,
    subr: Seq<char>,
) -> bool {
    exists|k: int|
        0 <= k < es.len() && (#[trigger] es[k]).name@ == n && es[k].value.deep()
            == crate::value::VView::Subr(crate::value::SubrView::Builtin(subr))
}

/// What the builder pins about the array classes: `Array` and
/// `Array!` exist with the mutable variant below the immutable, the
/// const-generic signatures of `concat` (N + M), `push` (N + 1) and
/// `push!`/`pop!` (N + 1 / N - 1), the bounds-checking index
/// refinement of `__getitem__`, and the published const subroutine
/// binding it to the catalogued accessor.
pub open spec fn array_sigs_built(cs: Seq<crate::universe::ClassEntry>) -> bool {
    exists|ia: int, im_: int|
        {
            &&& 0 <= ia < im_ < cs.len()
            &&& (#[trigger] cs[ia]).name@ == ("Array")@
            &&& (#[trigger] cs[im_]).name@ == ("Array!")@
            &&& cs[im_].superclass == Some(ia as usize)
            &&& has_method_sig(cs[ia].methods@, ("concat")@, concat_sig_view())
            &&& has_method_sig(cs[ia].methods@, ("push")@, push_sig_view())
            &&& has_method_sig(cs[ia].methods@, ("__getitem__")@, getitem_sig_view())
            &&& has_const_subr(cs[ia].consts@, ("__getitem__")@, ("__array_getitem__")@)
        }
}

/// The namespace maps a published name to an arena index.
pub open spec fn ns_maps(ns: Seq<(String, usize)>, name: Seq<char>, i: int) -> bool {
    exists|k: int| 0 <= k < ns.len() && (#[trigger] ns[k]).0@ == name && ns[k].1 == i
}

/// What the builder pins about the published namespace: the core
/// classes stand under their canonical names, and under the
/// foreign-compatible aliases the compatibility mode selects.
pub open spec fn builtin_namespace_built(ns: Seq<(String, usize)>, py: bool) -> bool {
    &&& ns_maps(ns, ("Never")@, 0)
    &&& ns_maps(ns, ("Obj")@, 1)
    &&& ns_maps(ns, ("object")@, 1)
    &&& ns_maps(ns, ("Float")@, 2)
    &&& ns_maps(ns, ("float")@, 2)
    &&& ns_maps(ns, ("Int")@, 4)
    &&& ns_maps(ns, ("int")@, 4)
    &&& ns_maps(ns, ("Nat")@, 5)
    &&& ns_maps(ns, ("Bool")@, 6)
    &&& (py ==> ns_maps(ns, ("bool")@, 6))
    &&& ns_maps(ns, ("Str")@, 7)
    &&& (py ==> ns_maps(ns, ("str")@, 7))
    &&& ns_maps(ns, ("Type")@, 9)
    &&& ns_maps(ns, ("type")@, 9)
}

/// What the builder pins about the hierarchy itself: the numeric
/// tower stands at its fixed arena indices with the exact superclass
/// chain boolean -> natural -> integer -> float -> object, the chain
/// depth from the boolean class is exactly four, the `Num` marker is
/// carried by the whole tower without re-registration, and every
/// core entry is published.
pub open spec fn builtin_tower_built(cs: Seq<crate::universe::ClassEntry>) -> bool {
    &&& 13 <= cs.len()
    &&& cs[1].name@ == ("Obj")@ && cs[1].superclass is None
    &&& cs[2].name@ == ("Float")@ && cs[2].superclass == Some(1usize)
    &&& cs[4].name@ == ("Int")@ && cs[4].superclass == Some(2usize)
    &&& cs[5].name@ == ("Nat")@ && cs[5].superclass == Some(4usize)
    &&& cs[6].name@ == ("Bool")@ && cs[6].superclass == Some(5usize)
    &&& crate::universe::chain_depth(cs, 6) == 4
    &&& crate::universe::has_capability(cs, 6, TyView::Mono(("Num")@))
    &&& cs[0].name@ == ("Never")@
    &&& cs[7].name@ == ("Str")@
    &&& cs[9].name@ == ("Type")@
    &&& (forall|k: int| 0 <= k < 13 ==> (#[trigger] cs[k]).published)
}

/// One namespace mapping survives when the namespace is extended.
pub proof fn lemma_ns_maps_extend(
    ns_old: Seq<(String, usize)>,
    ns_new: Seq<(String, usize)>,
    name: Seq<char>,
    i: int,
)
    requires
        ns_maps(ns_old, name, i),
        ns_old.len() <= ns_new.len(),
        forall|k: int| 0 <= k < ns_old.len() ==> ns_new[k] == ns_old[k],
    ensures
        ns_maps(ns_new, name, i),
{
    let k = choose|k: int|
        0 <= k < ns_old.len() && (#[trigger] ns_old[k]).0@ == name && ns_old[k].1 == i;
    assert(ns_new[k].0@ == name && ns_new[k].1 == i);
}

/// The whole published-namespace predicate survives extension.
pub proof fn lemma_ns_maps_all_extend(
    ns_old: Seq<(String, usize)>,
    ns_new: Seq<(String, usize)>,
    py: bool,
)
    requires
        builtin_namespace_built(ns_old, py),
        ns_old.len() <= ns_new.len(),
        forall|k: int| 0 <= k < ns_old.len() ==> ns_new[k] == ns_old[k],
    ensures
        builtin_namespace_built(ns_new, py),
{
    lemma_ns_maps_extend(ns_old, ns_new, ("Never")@, 0);
    lemma_ns_maps_extend(ns_old, ns_new, ("Obj")@, 1);
    lemma_ns_maps_extend(ns_old, ns_new, ("object")@, 1);
    lemma_ns_maps_extend(ns_old, ns_new, ("Float")@, 2);
    lemma_ns_maps_extend(ns_old, ns_new, ("float")@, 2);
    lemma_ns_maps_extend(ns_old, ns_new, ("Int")@, 4);
    lemma_ns_maps_extend(ns_old, ns_new, ("int")@, 4);
    lemma_ns_maps_extend(ns_old, ns_new, ("Nat")@, 5);
    lemma_ns_maps_extend(ns_old, ns_new, ("Bool")@, 6);
    if py {
        lemma_ns_maps_extend(ns_old, ns_new, ("bool")@, 6);
    }
    lemma_ns_maps_extend(ns_old, ns_new, ("Str")@, 7);
    if py {
        lemma_ns_maps_extend(ns_old, ns_new, ("str")@, 7);
    }
    lemma_ns_maps_extend(ns_old, ns_new, ("Type")@, 9);
    lemma_ns_maps_extend(ns_old, ns_new, ("type")@, 9);
}

/// What the core phase pins down about the built arena: the numeric
/// tower exists with its exact superclass chain, the `Num` marker
/// sits at `Float`, and the other core classes are present.
pub open spec fn core_classes_built(cs: Seq<crate::universe::ClassEntry>, core: CoreClasses) -> bool {
    &&& core.obj < core.float < core.int_cls < core.nat_cls < core.bool_cls < cs.len()
    &&& cs[core.obj as int].name@ == ("Obj")@
    &&& cs[core.obj as int].superclass is None
    &&& cs[core.float as int].name@ == ("Float")@
    &&& cs[core.float as int].superclass == Some(core.obj)
    &&& cs[core.int_cls as int].name@ == ("Int")@
    &&& cs[core.int_cls as int].superclass == Some(core.float)
    &&& cs[core.nat_cls as int].name@ == ("Nat")@
    &&& cs[core.nat_cls as int].superclass == Some(core.int_cls)
    &&& cs[core.bool_cls as int].name@ == ("Bool")@
    &&& cs[core.bool_cls as int].superclass == Some(core.nat_cls)
    &&& crate::universe::marker_has(cs[core.float as int].markers@, TyView::Mono(("Num")@))
    &&& core.never < cs.len() && cs[core.never as int].name@ == ("Never")@
    &&& core.ratio < cs.len() && cs[core.ratio as int].name@ == ("Ratio")@
    &&& core.str_cls < cs.len() && cs[core.str_cls as int].name@ == ("Str")@
    &&& core.none_cls < cs.len() && cs[core.none_cls as int].name@ == ("NoneType")@
    &&& core.type_cls < cs.len() && cs[core.type_cls as int].name@ == ("Type")@
    &&& core.class_type < cs.len() && cs[core.class_type as int].name@ == ("ClassType")@
    &&& core.trait_type < cs.len() && cs[core.trait_type as int].name@ == ("TraitType")@
    &&& core.code < cs.len() && cs[core.code as int].name@ == ("Code")@
}

impl TypeUniverse {
    /// Attaches one binary-operator trait implementation: the
    /// operator method and its `Output` constant.
    fn register_op_trait(
        &mut self,
        class: usize,
        self_t: Ty,
        trait_name: &str,
        op_name: &str,
        op_t: Ty,
        output: Ty,
    )
        ensures
            final(self).py_compatible == old(self).py_compatible,
            final(self).namespace@ == old(self).namespace@,
            old(self).wf_basic() ==> final(self).wf_basic(),
            final(self).classes@.len() == old(self).classes@.len(),
            forall|k: int|
                0 <= k < final(self).classes@.len() ==> (#[trigger] final(self).classes@[k]).name@
                    == old(self).classes@[k].name@ && final(self).classes@[k].superclass == old(self).classes@[k].superclass,
            forall|k: int|
                0 <= k < final(self).classes@.len() ==> (#[trigger] final(self).classes@[k]).markers@
                    == old(self).classes@[k].markers@,
            forall|k: int|
                0 <= k < final(self).classes@.len() ==> (#[trigger] final(self).classes@[k]).methods@
                    == old(self).classes@[k].methods@ && final(self).classes@[k].consts@ == old(self).classes@[k].consts@,
            forall|k: int|
                0 <= k < final(self).classes@.len() && k != class ==> (#[trigger] final(self).classes@[k]) == old(self).classes@[k],
    {
        let mut table = MethodTable::builtin_methods(
            Some(poly(trait_name, vec![ty_tp(self_t.clone())])),
            2,
        );
        table.register_builtin_erg_impl(op_name, op_t, Mutability::Const, Visibility::Public);
        table.register_builtin_const("Output", Visibility::Public, ValueObj::builtin_t(output));
        let _ = self.register_trait(class, self_t, table);
    }

    /// Attaches a comparison (`Ord`) trait implementation.
    fn register_ord_trait(&mut self, class: usize, self_t: Ty)
        ensures
            final(self).py_compatible == old(self).py_compatible,
            final(self).namespace@ == old(self).namespace@,
            old(self).wf_basic() ==> final(self).wf_basic(),
            final(self).classes@.len() == old(self).classes@.len(),
            forall|k: int|
                0 <= k < final(self).classes@.len() ==> (#[trigger] final(self).classes@[k]).name@
                    == old(self).classes@[k].name@ && final(self).classes@[k].superclass == old(self).classes@[k].superclass,
            forall|k: int|
                0 <= k < final(self).classes@.len() ==> (#[trigger] final(self).classes@[k]).markers@
                    == old(self).classes@[k].markers@,
            forall|k: int|
                0 <= k < final(self).classes@.len() ==> (#[trigger] final(self).classes@[k]).methods@
                    == old(self).classes@[k].methods@ && final(self).classes@[k].consts@ == old(self).classes@[k].consts@,
            forall|k: int|
                0 <= k < final(self).classes@.len() && k != class ==> (#[trigger] final(self).classes@[k]) == old(self).classes@[k],
    {
        let lhs = self_t.clone();
        let rhs = self_t.clone();
        let mut table = MethodTable::builtin_methods(Some(mono("Ord")), 2);
        table.register_builtin_erg_impl(
            "__cmp__",
            fn1_met(lhs, rhs, mono("Ordering")),
            Mutability::Const,
            Visibility::Public,
        );
        let _ = self.register_trait(class, self_t, table);
    }

    /// Attaches an equality (`Eq`) trait implementation.
    fn register_eq_trait(&mut self, class: usize, self_t: Ty)
        ensures
            final(self).py_compatible == old(self).py_compatible,
            final(self).namespace@ == old(self).namespace@,
            old(self).wf_basic() ==> final(self).wf_basic(),
            final(self).classes@.len() == old(self).classes@.len(),
            forall|k: int|
                0 <= k < final(self).classes@.len() ==> (#[trigger] final(self).classes@[k]).name@
                    == old(self).classes@[k].name@ && final(self).classes@[k].superclass == old(self).classes@[k].superclass,
            forall|k: int|
                0 <= k < final(self).classes@.len() ==> (#[trigger] final(self).classes@[k]).markers@
                    == old(self).classes@[k].markers@,
            forall|k: int|
                0 <= k < final(self).classes@.len() ==> (#[trigger] final(self).classes@[k]).methods@
                    == old(self).classes@[k].methods@ && final(self).classes@[k].consts@ == old(self).classes@[k].consts@,
            forall|k: int|
                0 <= k < final(self).classes@.len() && k != class ==> (#[trigger] final(self).classes@[k]) == old(self).classes@[k],
    {
        let lhs = self_t.clone();
        let rhs = self_t.clone();
        let mut table = MethodTable::builtin_methods(Some(mono("Eq")), 2);
        table.register_builtin_erg_impl(
            "__eq__",
            fn1_met(lhs, rhs, mono("Bool")),
            Mutability::Const,
            Visibility::Public,
        );
        let _ = self.register_trait(class, self_t, table);
    }

    /// Attaches a `Mutizable` trait implementation naming the mutable
    /// variant type.
    fn register_mutizable(&mut self, class: usize, self_t: Ty, mut_name: &str)
        ensures
            final(self).py_compatible == old(self).py_compatible,
            final(self).namespace@ == old(self).namespace@,
            old(self).wf_basic() ==> final(self).wf_basic(),
            final(self).classes@.len() == old(self).classes@.len(),
            forall|k: int|
                0 <= k < final(self).classes@.len() ==> (#[trigger] final(self).classes@[k]).name@
                    == old(self).classes@[k].name@ && final(self).classes@[k].superclass == old(self).classes@[k].superclass,
            forall|k: int|
                0 <= k < final(self).classes@.len() ==> (#[trigger] final(self).classes@[k]).markers@
                    == old(self).classes@[k].markers@,
            forall|k: int|
                0 <= k < final(self).classes@.len() ==> (#[trigger] final(self).classes@[k]).methods@
                    == old(self).classes@[k].methods@ && final(self).classes@[k].consts@ == old(self).classes@[k].consts@,
            forall|k: int|
                0 <= k < final(self).classes@.len() && k != class ==> (#[trigger] final(self).classes@[k]) == old(self).classes@[k],
    {
        let mut table = MethodTable::builtin_methods(Some(mono("Mutizable")), 2);
        table.register_builtin_const(
            "MutType!",
            Visibility::Public,
            ValueObj::builtin_t(mono(mut_name)),
        );
        let _ = self.register_trait(class, self_t, table);
    }

    /// Attaches a `Show` trait implementation.
    fn register_show(&mut self, class: usize, self_t: Ty)
        ensures
            final(self).py_compatible == old(self).py_compatible,
            final(self).namespace@ == old(self).namespace@,
            old(self).wf_basic() ==> final(self).wf_basic(),
            final(self).classes@.len() == old(self).classes@.len(),
            forall|k: int|
                0 <= k < final(self).classes@.len() ==> (#[trigger] final(self).classes@[k]).name@
                    == old(self).classes@[k].name@ && final(self).classes@[k].superclass == old(self).classes@[k].superclass,
            forall|k: int|
                0 <= k < final(self).classes@.len() ==> (#[trigger] final(self).classes@[k]).markers@
                    == old(self).classes@[k].markers@,
            forall|k: int|
                0 <= k < final(self).classes@.len() ==> (#[trigger] final(self).classes@[k]).methods@
                    == old(self).classes@[k].methods@ && final(self).classes@[k].consts@ == old(self).classes@[k].consts@,
            forall|k: int|
                0 <= k < final(self).classes@.len() && k != class ==> (#[trigger] final(self).classes@[k]) == old(self).classes@[k],
    {
        let slf = self_t.clone();
        let mut table = MethodTable::builtin_methods(Some(mono("Show")), 1);
        table.register_builtin_py_impl(
            "to_str",
            fn0_met(slf, mono("Str")),
            Mutability::Immutable,
            Visibility::Public,
            Some("__str__"),
        );
        let _ = self.register_trait(class, self_t, table);
    }

    /// Builds the numeric tower and the other core nominal classes:
    /// `Never` and `Obj` first (leaves of the dependency order), then
    /// `Float`, `Ratio`, `Int`, `Nat`, `Bool`, `Str`, `NoneType` and
    /// the type-of-type classes.
    /// Registers the bottom class.
    fn init_never_class(&mut self) -> (idx: usize)
        ensures
            final(self).py_compatible == old(self).py_compatible,
            final(self).namespace@ == old(self).namespace@,
            old(self).wf_basic() ==> final(self).wf_basic(),
            idx == old(self).classes@.len(),
            final(self).classes@.len() == old(self).classes@.len() + 1,
            forall|k: int|
                0 <= k < old(self).classes@.len() ==> (#[trigger] final(self).classes@[k]).name@
                    == old(self).classes@[k].name@ && final(self).classes@[k].superclass == old(self).classes@[k].superclass,
            forall|k: int|
                0 <= k < old(self).classes@.len() ==> (#[trigger] final(self).classes@[k]).markers@
                    == old(self).classes@[k].markers@,
            final(self).classes@[idx as int].name@ == ("Never")@,
            final(self).classes@[idx as int].superclass is None,
    {
        self.builtin_mono_class("Never", 1)
    }

    /// Registers the root class and its fundamental members.
    fn init_obj_class(&mut self) -> (idx: usize)
        ensures
            final(self).py_compatible == old(self).py_compatible,
            final(self).namespace@ == old(self).namespace@,
            old(self).wf_basic() ==> final(self).wf_basic(),
            idx == old(self).classes@.len(),
            final(self).classes@.len() == old(self).classes@.len() + 1,
            forall|k: int|
                0 <= k < old(self).classes@.len() ==> (#[trigger] final(self).classes@[k]).name@
                    == old(self).classes@[k].name@ && final(self).classes@[k].superclass == old(self).classes@[k].superclass,
            forall|k: int|
                0 <= k < old(self).classes@.len() ==> (#[trigger] final(self).classes@[k]).markers@
                    == old(self).classes@[k].markers@,
            final(self).classes@[idx as int].name@ == ("Obj")@,
            final(self).classes@[idx as int].superclass is None,
    {
        let cst = Mutability::Const;
        let im = Mutability::Immutable;
        let pb = Visibility::Public;
        let idx: usize = self.builtin_mono_class("Obj", 2);
        let t = quantify(fn0_met(mono("Self"), mono("Self")));
        let _ = self.register_builtin_erg_impl(idx, "clone", t, cst, pb);
        let _ = self.register_builtin_erg_impl(idx, "__module__", mono("Str"), cst, pb);
        let _ = self.register_builtin_erg_impl(
            idx,
            "__sizeof__",
            fn0_met(mono("Obj"), mono("Nat")),
            cst,
            pb,
        );
        let _ = self.register_builtin_erg_impl(
            idx,
            "__repr__",
            fn0_met(mono("Obj"), mono("Str")),
            im,
            pb,
        );
        let _ = self.register_builtin_erg_impl(
            idx,
            "__str__",
            fn0_met(mono("Obj"), mono("Str")),
            im,
            pb,
        );
        let _ = self.register_builtin_erg_impl(
            idx,
            "__dict__",
            fn0_met(mono("Obj"), dict_t(mono("Str"), mono("Obj"))),
            im,
            pb,
        );
        let _ = self.register_builtin_erg_impl(
            idx,
            "__bytes__",
            fn0_met(mono("Obj"), mono("Bytes")),
            im,
            pb,
        );
        let mut obj_in = MethodTable::builtin_methods(
            Some(poly("In", vec![ty_tp(mono("Type"))])),
            2,
        );
        obj_in.register_builtin_erg_impl(
            "__in__",
            fn1_met(mono("Obj"), mono("Type"), mono("Bool")),
            cst,
            pb,
        );
        let _ = self.register_trait(idx, mono("Obj"), obj_in);
        self.register_mutizable(idx, mono("Obj"), "Obj!");
        // Obj does not implement Eq.

        idx
    }

    /// Registers the floating-point class of the numeric tower.
    fn init_float_class(&mut self, parent: usize) -> (idx: usize)
        requires
            parent < old(self).classes@.len(),
        ensures
            final(self).py_compatible == old(self).py_compatible,
            final(self).namespace@ == old(self).namespace@,
            old(self).wf_basic() ==> final(self).wf_basic(),
            idx == old(self).classes@.len(),
            final(self).classes@.len() == old(self).classes@.len() + 1,
            forall|k: int|
                0 <= k < old(self).classes@.len() ==> (#[trigger] final(self).classes@[k]).name@
                    == old(self).classes@[k].name@ && final(self).classes@[k].superclass == old(self).classes@[k].superclass,
            forall|k: int|
                0 <= k < old(self).classes@.len() ==> (#[trigger] final(self).classes@[k]).markers@
                    == old(self).classes@[k].markers@,
            final(self).classes@[idx as int].name@ == ("Float")@,
            final(self).classes@[idx as int].superclass == Some(parent),
            crate::universe::marker_has(
                final(self).classes@[idx as int].markers@,
                TyView::Mono(("Num")@),
            ),
    {
        let cst = Mutability::Const;
        let im = Mutability::Immutable;
        let pb = Visibility::Public;
        let idx: usize = self.builtin_mono_class("Float", 2);
        let _ = self.register_superclass(idx, parent);
        let _ = self.register_builtin_py_impl(idx, "Real", mono("Float"), cst, pb, Some("real"));
        let _ = self.register_builtin_py_impl(idx, "Imag", mono("Float"), cst, pb, Some("imag"));
        let _ = self.register_builtin_py_impl(
            idx,
            "conjugate",
            fn0_met(mono("Float"), mono("Float")),
            cst,
            pb,
            Some("conjugate"),
        );
        let _ = self.register_py_builtin(
            idx,
            "hex",
            fn0_met(mono("Float"), mono("Str")),
            Some("hex"),
            24,
        );
        let _ = self.register_py_builtin(
            idx,
            "is_integer",
            fn0_met(mono("Float"), mono("Bool")),
            Some("is_integer"),
            32,
        );
        let _ = self.register_builtin_py_impl(
            idx,
            "fromhex",
            nd_func(vec![mono("Str")], mono("Float")),
            cst,
            pb,
            Some("fromhex"),
        );
        let t_num = mono("Num");
        proof {
            assert(t_num.deep() == TyView::Mono(("Num")@));
        }
        let _ = self.register_marker_trait(idx, t_num);
        proof {
            let ms = self.classes@[idx as int].markers@;
            assert(ms[ms.len() - 1].deep() == TyView::Mono(("Num")@));
            assert(crate::universe::marker_has(ms, TyView::Mono(("Num")@)));
        }
        let ghost ms_num = self.classes@[idx as int].markers@;
        let _ = self.register_marker_trait(idx, mono("Ord"));
        proof {
            crate::universe::lemma_marker_has_extend(
                ms_num,
                self.classes@[idx as int].markers@,
                TyView::Mono(("Num")@),
            );
        }
        self.register_ord_trait(idx, mono("Float"));
        // Float does not implement Eq.
        let op_t = fn1_met(mono("Float"), mono("Float"), mono("Float"));
        self.register_op_trait(idx, mono("Float"), "Add", "__add__", op_t.clone(), mono("Float"));
        self.register_op_trait(idx, mono("Float"), "Sub", "__sub__", op_t.clone(), mono("Float"));
        self.register_op_trait(idx, mono("Float"), "Mul", "__mul__", op_t.clone(), mono("Float"));
        self.register_op_trait(idx, mono("Float"), "Div", "__div__", op_t.clone(), mono("Float"));
        self.register_op_trait(idx, mono("Float"), "FloorDiv", "__floordiv__", op_t, mono("Float"));
        self.register_mutizable(idx, mono("Float"), "Float!");
        self.register_show(idx, mono("Float"));

        idx
    }

    /// Registers the rational class.
    fn init_ratio_class(&mut self, parent: usize) -> (idx: usize)
        requires
            parent < old(self).classes@.len(),
        ensures
            final(self).py_compatible == old(self).py_compatible,
            final(self).namespace@ == old(self).namespace@,
            old(self).wf_basic() ==> final(self).wf_basic(),
            idx == old(self).classes@.len(),
            final(self).classes@.len() == old(self).classes@.len() + 1,
            forall|k: int|
                0 <= k < old(self).classes@.len() ==> (#[trigger] final(self).classes@[k]).name@
                    == old(self).classes@[k].name@ && final(self).classes@[k].superclass == old(self).classes@[k].superclass,
            forall|k: int|
                0 <= k < old(self).classes@.len() ==> (#[trigger] final(self).classes@[k]).markers@
                    == old(self).classes@[k].markers@,
            final(self).classes@[idx as int].name@ == ("Ratio")@,
            final(self).classes@[idx as int].superclass == Some(parent),
    {
        let cst = Mutability::Const;
        let im = Mutability::Immutable;
        let pb = Visibility::Public;
        let idx: usize = self.builtin_mono_class("Ratio", 2);
        let _ = self.register_superclass(idx, parent);
        let _ = self.register_builtin_py_impl(idx, "Real", mono("Ratio"), cst, pb, Some("real"));
        let _ = self.register_builtin_py_impl(idx, "Imag", mono("Ratio"), cst, pb, Some("imag"));
        let _ = self.register_marker_trait(idx, mono("Num"));
        let _ = self.register_marker_trait(idx, mono("Ord"));
        self.register_ord_trait(idx, mono("Ratio"));
        self.register_eq_trait(idx, mono("Ratio"));
        let op_t = fn1_met(mono("Ratio"), mono("Ratio"), mono("Ratio"));
        self.register_op_trait(idx, mono("Ratio"), "Add", "__add__", op_t.clone(), mono("Ratio"));
        self.register_op_trait(idx, mono("Ratio"), "Sub", "__sub__", op_t.clone(), mono("Ratio"));
        self.register_op_trait(idx, mono("Ratio"), "Mul", "__mul__", op_t.clone(), mono("Ratio"));
        self.register_op_trait(idx, mono("Ratio"), "Div", "__div__", op_t, mono("Ratio"));
        self.register_mutizable(idx, mono("Ratio"), "Ratio!");
        self.register_show(idx, mono("Ratio"));

        idx
    }

    /// Registers the integer class.
    fn init_int_class(&mut self, parent: usize) -> (idx: usize)
        requires
            parent < old(self).classes@.len(),
        ensures
            final(self).py_compatible == old(self).py_compatible,
            final(self).namespace@ == old(self).namespace@,
            old(self).wf_basic() ==> final(self).wf_basic(),
            idx == old(self).classes@.len(),
            final(self).classes@.len() == old(self).classes@.len() + 1,
            forall|k: int|
                0 <= k < old(self).classes@.len() ==> (#[trigger] final(self).classes@[k]).name@
                    == old(self).classes@[k].name@ && final(self).classes@[k].superclass == old(self).classes@[k].superclass,
            forall|k: int|
                0 <= k < old(self).classes@.len() ==> (#[trigger] final(self).classes@[k]).markers@
                    == old(self).classes@[k].markers@,
            final(self).classes@[idx as int].name@ == ("Int")@,
            final(self).classes@[idx as int].superclass == Some(parent),
    {
        let cst = Mutability::Const;
        let im = Mutability::Immutable;
        let pb = Visibility::Public;
        let idx: usize = self.builtin_mono_class("Int", 2);
        let _ = self.register_superclass(idx, parent);
        let _ = self.register_marker_trait(idx, mono("Num"));
        let _ = self.register_builtin_py_impl(
            idx,
            "abs",
            fn0_met(mono("Int"), mono("Nat")),
            im,
            pb,
            Some("__abs__"),
        );
        let _ = self.register_builtin_py_impl(
            idx,
            "succ",
            fn0_met(mono("Int"), mono("Int")),
            im,
            pb,
            Some("succ"),
        );
        let _ = self.register_builtin_py_impl(
            idx,
            "pred",
            fn0_met(mono("Int"), mono("Int")),
            im,
            pb,
            Some("pred"),
        );
        let _ = self.register_py_builtin(
            idx,
            "bit_length",
            fn0_met(mono("Int"), mono("Nat")),
            Some("bit_length"),
            28,
        );
        let _ = self.register_py_builtin(
            idx,
            "bit_count",
            fn0_met(mono("Int"), mono("Nat")),
            Some("bit_count"),
            17,
        );
        let byteorder_t = v_enum(
            mono("Str"),
            vec![TyParam::StrLit(("big").to_owned()), TyParam::StrLit(("little").to_owned())],
        );
        let _ = self.register_builtin_py_impl(
            idx,
            "from_bytes",
            nd_func(
                vec![or(mono("Bytes"), unknown_len_array_t(interval(0, 255))), byteorder_t.clone()],
                mono("Int"),
            ),
            cst,
            pb,
            Some("from_bytes"),
        );
        let _ = self.register_builtin_py_impl(
            idx,
            "to_bytes",
            fn_met(mono("Int"), vec![mono("Nat"), byteorder_t], mono("Bytes")),
            im,
            pb,
            Some("to_bytes"),
        );
        let mut int_ord = MethodTable::builtin_methods(Some(mono("Ord")), 2);
        int_ord.register_builtin_erg_impl(
            "__partial_cmp__",
            fn1_met(mono("Int"), mono("Int"), or(mono("Ordering"), mono("NoneType"))),
            cst,
            pb,
        );
        let _ = self.register_trait(idx, mono("Int"), int_ord);
        self.register_eq_trait(idx, mono("Int"));
        // __div__ is not included in Int (cast to Ratio).
        let op_t = fn1_met(mono("Int"), mono("Int"), mono("Int"));
        self.register_op_trait(idx, mono("Int"), "Add", "__add__", op_t.clone(), mono("Int"));
        self.register_op_trait(idx, mono("Int"), "Sub", "__sub__", op_t.clone(), mono("Int"));
        self.register_op_trait(idx, mono("Int"), "Mul", "__mul__", op_t.clone(), mono("Int"));
        self.register_op_trait(idx, mono("Int"), "FloorDiv", "__floordiv__", op_t, mono("Int"));
        self.register_mutizable(idx, mono("Int"), "Int!");
        self.register_show(idx, mono("Int"));
        let _ = self.register_builtin_py_impl(idx, "Real", mono("Int"), cst, pb, Some("real"));
        let _ = self.register_builtin_py_impl(idx, "Imag", mono("Int"), cst, pb, Some("imag"));

        idx
    }

    /// Registers the natural-number class.
    fn init_nat_class(&mut self, parent: usize) -> (idx: usize)
        requires
            parent < old(self).classes@.len(),
        ensures
            final(self).py_compatible == old(self).py_compatible,
            final(self).namespace@ == old(self).namespace@,
            old(self).wf_basic() ==> final(self).wf_basic(),
            idx == old(self).classes@.len(),
            final(self).classes@.len() == old(self).classes@.len() + 1,
            forall|k: int|
                0 <= k < old(self).classes@.len() ==> (#[trigger] final(self).classes@[k]).name@
                    == old(self).classes@[k].name@ && final(self).classes@[k].superclass == old(self).classes@[k].superclass,
            forall|k: int|
                0 <= k < old(self).classes@.len() ==> (#[trigger] final(self).classes@[k]).markers@
                    == old(self).classes@[k].markers@,
            final(self).classes@[idx as int].name@ == ("Nat")@,
            final(self).classes@[idx as int].superclass == Some(parent),
    {
        let cst = Mutability::Const;
        let im = Mutability::Immutable;
        let pb = Visibility::Public;
        let idx: usize = self.builtin_mono_class("Nat", 10);
        let _ = self.register_superclass(idx, parent);
        let _ = self.register_builtin_py_impl(
            idx,
            "times!",
            pr_met(
                mono("Nat"),
                vec![nd_proc(Vec::new(), mono("NoneType"))],
                mono("NoneType"),
            ),
            im,
            pb,
            Some("times"),
        );
        let _ = self.register_marker_trait(idx, mono("Num"));
        self.register_eq_trait(idx, mono("Nat"));
        self.register_ord_trait(idx, mono("Nat"));
        // __sub__ and __div__ are not included in Nat (cast to Int/Ratio).
        let op_t = fn1_met(mono("Nat"), mono("Nat"), mono("Nat"));
        self.register_op_trait(idx, mono("Nat"), "Add", "__add__", op_t.clone(), mono("Nat"));
        self.register_op_trait(idx, mono("Nat"), "Mul", "__mul__", op_t.clone(), mono("Nat"));
        self.register_op_trait(idx, mono("Nat"), "FloorDiv", "__floordiv__", op_t, mono("Nat"));
        self.register_mutizable(idx, mono("Nat"), "Nat!");
        let _ = self.register_builtin_erg_impl(idx, "Real", mono("Nat"), cst, pb);
        let _ = self.register_builtin_erg_impl(idx, "Imag", mono("Nat"), cst, pb);

        idx
    }

    /// Registers the boolean class.
    fn init_bool_class(&mut self, parent: usize) -> (idx: usize)
        requires
            parent < old(self).classes@.len(),
        ensures
            final(self).py_compatible == old(self).py_compatible,
            final(self).namespace@ == old(self).namespace@,
            old(self).wf_basic() ==> final(self).wf_basic(),
            idx == old(self).classes@.len(),
            final(self).classes@.len() == old(self).classes@.len() + 1,
            forall|k: int|
                0 <= k < old(self).classes@.len() ==> (#[trigger] final(self).classes@[k]).name@
                    == old(self).classes@[k].name@ && final(self).classes@[k].superclass == old(self).classes@[k].superclass,
            forall|k: int|
                0 <= k < old(self).classes@.len() ==> (#[trigger] final(self).classes@[k]).markers@
                    == old(self).classes@[k].markers@,
            final(self).classes@[idx as int].name@ == ("Bool")@,
            final(self).classes@[idx as int].superclass == Some(parent),
    {
        let cst = Mutability::Const;
        let im = Mutability::Immutable;
        let pb = Visibility::Public;
        let idx: usize = self.builtin_mono_class("Bool", 10);
        let _ = self.register_superclass(idx, parent);
        let _ = self.register_builtin_erg_impl(
            idx,
            "__and__",
            fn1_met(mono("Bool"), mono("Bool"), mono("Bool")),
            cst,
            pb,
        );
        let _ = self.register_builtin_erg_impl(
            idx,
            "__or__",
            fn1_met(mono("Bool"), mono("Bool"), mono("Bool")),
            cst,
            pb,
        );
        let _ = self.register_marker_trait(idx, mono("Num"));
        self.register_ord_trait(idx, mono("Bool"));
        self.register_eq_trait(idx, mono("Bool"));
        self.register_mutizable(idx, mono("Bool"), "Bool!");
        self.register_show(idx, mono("Bool"));
        let _ = self.register_builtin_py_impl(
            idx,
            "invert",
            fn0_met(mono("Bool"), mono("Bool")),
            im,
            pb,
            Some("invert"),
        );

        idx
    }

    /// Registers the string class and its members.
    #[verifier::rlimit(100)]
    fn init_str_class(&mut self, parent: usize) -> (idx: usize)
        requires
            parent < old(self).classes@.len(),
        ensures
            final(self).py_compatible == old(self).py_compatible,
            final(self).namespace@ == old(self).namespace@,
            old(self).wf_basic() ==> final(self).wf_basic(),
            idx == old(self).classes@.len(),
            final(self).classes@.len() == old(self).classes@.len() + 1,
            forall|k: int|
                0 <= k < old(self).classes@.len() ==> (#[trigger] final(self).classes@[k]).name@
                    == old(self).classes@[k].name@ && final(self).classes@[k].superclass == old(self).classes@[k].superclass,
            forall|k: int|
                0 <= k < old(self).classes@.len() ==> (#[trigger] final(self).classes@[k]).markers@
                    == old(self).classes@[k].markers@,
            final(self).classes@[idx as int].name@ == ("Str")@,
            final(self).classes@[idx as int].superclass == Some(parent),
    {
        let cst = Mutability::Const;
        let im = Mutability::Immutable;
        let pb = Visibility::Public;
        let idx: usize = self.builtin_mono_class("Str", 10);
        let _ = self.register_superclass(idx, parent);
        let _ = self.register_marker_trait(idx, mono("Ord"));
        let _ = self.register_marker_trait(idx, mono("PathLike"));
        let _ = self.register_builtin_erg_impl(
            idx,
            "replace",
            fn_met(mono("Str"), vec![mono("Str"), mono("Str")], mono("Str")),
            im,
            pb,
        );
        let _ = self.register_builtin_erg_impl(
            idx,
            "encode",
            fn_met(mono("Str"), vec![mono("Str"), mono("Str")], mono("Bytes")),
            im,
            pb,
        );
        let _ = self.register_builtin_erg_impl(
            idx,
            "format",
            fn_met(mono("Str"), vec![mono("Obj")], mono("Str")),
            im,
            pb,
        );
        let _ = self.register_builtin_erg_impl(
            idx,
            "lower",
            fn0_met(mono("Str"), mono("Str")),
            im,
            pb,
        );
        let _ = self.register_builtin_erg_impl(
            idx,
            "upper",
            fn0_met(mono("Str"), mono("Str")),
            im,
            pb,
        );
        let _ = self.register_builtin_erg_impl(
            idx,
            "to_int",
            fn0_met(mono("Str"), or(mono("Int"), mono("NoneType"))),
            im,
            pb,
        );
        let _ = self.register_builtin_py_impl(
            idx,
            "startswith",
            fn1_met(mono("Str"), mono("Str"), mono("Bool")),
            im,
            pb,
            Some("startswith"),
        );
        let _ = self.register_builtin_py_impl(
            idx,
            "endswith",
            fn1_met(mono("Str"), mono("Str"), mono("Bool")),
            im,
            pb,
            Some("endswith"),
        );
        let _ = self.register_builtin_py_impl(
            idx,
            "split",
            fn_met(mono("Str"), vec![mono("Str")], unknown_len_array_t(mono("Str"))),
            im,
            pb,
            Some("split"),
        );
        let _ = self.register_builtin_py_impl(
            idx,
            "splitlines",
            fn0_met(mono("Str"), unknown_len_array_t(mono("Str"))),
            im,
            pb,
            Some("splitlines"),
        );
        let _ = self.register_builtin_py_impl(
            idx,
            "join",
            fn1_met(unknown_len_array_t(mono("Str")), mono("Str"), mono("Str")),
            im,
            pb,
            Some("join"),
        );
        let _ = self.register_builtin_py_impl(
            idx,
            "index",
            fn_met(mono("Str"), vec![mono("Str")], or(mono("Nat"), mono("Never"))),
            im,
            pb,
            Some("index"),
        );
        let _ = self.register_builtin_py_impl(
            idx,
            "rindex",
            fn_met(mono("Str"), vec![mono("Str")], or(mono("Nat"), mono("Never"))),
            im,
            pb,
            Some("rindex"),
        );
        let _ = self.register_builtin_py_impl(
            idx,
            "find",
            fn_met(mono("Str"), vec![mono("Str")], or(mono("Nat"), interval(0, 0))),
            im,
            pb,
            Some("find"),
        );
        let _ = self.register_builtin_py_impl(
            idx,
            "rfind",
            fn_met(mono("Str"), vec![mono("Str")], or(mono("Nat"), interval(0, 0))),
            im,
            pb,
            Some("rfind"),
        );
        let _ = self.register_builtin_py_impl(
            idx,
            "count",
            fn_met(mono("Str"), vec![mono("Str")], mono("Nat")),
            im,
            pb,
            Some("count"),
        );
        let _ = self.register_py_builtin(
            idx,
            "capitalize",
            fn0_met(mono("Str"), mono("Str")),
            Some("capitalize"),
            13,
        );
        let _ = self.register_builtin_erg_impl(
            idx,
            "contains",
            fn1_met(mono("Str"), mono("Str"), mono("Bool")),
            im,
            pb,
        );
        let _ = self.register_builtin_erg_impl(
            idx,
            "__getitem__",
            fn1_met(mono("Str"), mono("Nat"), mono("Str")),
            im,
            pb,
        );
        self.register_eq_trait(idx, mono("Str"));
        let mut str_seq = MethodTable::builtin_methods(
            Some(poly("Seq", vec![ty_tp(mono("Str"))])),
            2,
        );
        str_seq.register_builtin_erg_impl("len", fn0_met(mono("Str"), mono("Nat")), cst, pb);
        str_seq.register_builtin_erg_impl(
            "get",
            fn1_met(mono("Str"), mono("Nat"), mono("Str")),
            cst,
            pb,
        );
        let _ = self.register_trait(idx, mono("Str"), str_seq);
        let op_t = fn1_met(mono("Str"), mono("Str"), mono("Str"));
        self.register_op_trait(idx, mono("Str"), "Add", "__add__", op_t, mono("Str"));
        let mut str_mul = MethodTable::builtin_methods(
            Some(poly("Mul", vec![ty_tp(mono("Nat"))])),
            2,
        );
        str_mul.register_builtin_erg_impl(
            "__mul__",
            fn1_met(mono("Str"), mono("Nat"), mono("Str")),
            cst,
            pb,
        );
        str_mul.register_builtin_const("Output", pb, ValueObj::builtin_t(mono("Str")));
        let _ = self.register_trait(idx, mono("Str"), str_mul);
        self.register_mutizable(idx, mono("Str"), "Str!");
        self.register_show(idx, mono("Str"));
        let mut str_iterable = MethodTable::builtin_methods(
            Some(poly("Iterable", vec![ty_tp(mono("Str"))])),
            2,
        );
        str_iterable.register_builtin_py_impl(
            "iter",
            fn0_met(mono("Str"), mono("StrIterator")),
            im,
            pb,
            Some("__iter__"),
        );
        let _ = self.register_trait(idx, mono("Str"), str_iterable);

        idx
    }

    /// Registers `NoneType`, the type-of-type classes and `Code`.
    #[verifier::rlimit(100)]
    fn init_scalar_type_classes(&mut self, obj: usize) -> (r: (usize, usize, usize, usize, usize))
        requires
            obj < old(self).classes@.len(),
        ensures
            final(self).py_compatible == old(self).py_compatible,
            final(self).namespace@ == old(self).namespace@,
            old(self).wf_basic() ==> final(self).wf_basic(),
            forall|k: int|
                0 <= k < old(self).classes@.len() ==> (#[trigger] final(self).classes@[k]).name@
                    == old(self).classes@[k].name@ && final(self).classes@[k].superclass == old(self).classes@[k].superclass,
            forall|k: int|
                0 <= k < old(self).classes@.len() ==> (#[trigger] final(self).classes@[k]).markers@
                    == old(self).classes@[k].markers@,
            final(self).classes@.len() == old(self).classes@.len() + 5,
            r.0 == old(self).classes@.len(),
            r.1 == old(self).classes@.len() + 1,
            r.2 == old(self).classes@.len() + 2,
            r.3 == old(self).classes@.len() + 3,
            r.4 == old(self).classes@.len() + 4,
            r.0 < final(self).classes@.len() && final(self).classes@[r.0 as int].name@ == (
            "NoneType")@,
            r.1 < final(self).classes@.len() && final(self).classes@[r.1 as int].name@ == (
            "Type")@,
            r.2 < final(self).classes@.len() && final(self).classes@[r.2 as int].name@ == (
            "ClassType")@,
            r.3 < final(self).classes@.len() && final(self).classes@[r.3 as int].name@ == (
            "TraitType")@,
            r.4 < final(self).classes@.len() && final(self).classes@[r.4 as int].name@ == (
            "Code")@,
    {
        let cst = Mutability::Const;
        let im = Mutability::Immutable;
        let pb = Visibility::Public;
        /* NoneType */
        let none_cls: usize = self.builtin_mono_class("NoneType", 10);
        let _ = self.register_superclass(none_cls, obj);
        self.register_eq_trait(none_cls, mono("NoneType"));
        self.register_show(none_cls, mono("NoneType"));

        /* Type classes */
        let type_cls: usize = self.builtin_mono_class("Type", 2);
        let _ = self.register_superclass(type_cls, obj);
        let _ = self.register_builtin_erg_impl(
            type_cls,
            "mro",
            fn0_met(mono("Type"), unknown_len_array_t(mono("Type"))),
            im,
            pb,
        );
        let _ = self.register_marker_trait(type_cls, mono("Named"));
        self.register_eq_trait(type_cls, mono("Type"));
        let class_type: usize = self.builtin_mono_class("ClassType", 2);
        let _ = self.register_superclass(class_type, type_cls);
        let _ = self.register_marker_trait(class_type, mono("Named"));
        self.register_eq_trait(class_type, mono("ClassType"));
        let trait_type: usize = self.builtin_mono_class("TraitType", 2);
        let _ = self.register_superclass(trait_type, type_cls);
        let _ = self.register_marker_trait(trait_type, mono("Named"));
        self.register_eq_trait(trait_type, mono("TraitType"));
        let code: usize = self.builtin_mono_class("Code", 6);
        let _ = self.register_superclass(code, obj);
        let _ = self.register_builtin_erg_impl(code, "co_argcount", mono("Nat"), im, pb);
        let _ = self.register_builtin_erg_impl(
            code,
            "co_varnames",
            unknown_len_array_t(mono("Str")),
            im,
            pb,
        );
        let _ = self.register_builtin_erg_impl(code, "co_consts", unknown_len_array_t(mono("Obj")), im, pb);
        let _ = self.register_builtin_erg_impl(code, "co_names", unknown_len_array_t(mono("Str")), im, pb);
        let _ = self.register_builtin_erg_impl(
            code,
            "co_freevars",
            unknown_len_array_t(mono("Str")),
            im,
            pb,
        );
        let _ = self.register_builtin_erg_impl(
            code,
            "co_cellvars",
            unknown_len_array_t(mono("Str")),
            im,
            pb,
        );
        let _ = self.register_builtin_erg_impl(code, "co_filename", mono("Str"), im, pb);
        let _ = self.register_builtin_erg_impl(code, "co_name", mono("Str"), im, pb);
        let _ = self.register_builtin_erg_impl(code, "co_firstlineno", mono("Nat"), im, pb);
        let _ = self.register_builtin_erg_impl(code, "co_stacksize", mono("Nat"), im, pb);
        let _ = self.register_builtin_erg_impl(code, "co_flags", mono("Nat"), im, pb);
        let _ = self.register_builtin_erg_impl(code, "co_code", mono("Bytes"), im, pb);
        let _ = self.register_builtin_erg_impl(code, "co_lnotab", mono("Bytes"), im, pb);
        let _ = self.register_builtin_erg_impl(code, "co_nlocals", mono("Nat"), im, pb);
        let _ = self.register_builtin_erg_impl(code, "co_kwonlyargcount", mono("Nat"), im, pb);
        let _ = self.register_builtin_erg_impl(code, "co_posonlyargcount", mono("Nat"), im, pb);
        self.register_eq_trait(code, mono("Code"));

        (none_cls, type_cls, class_type, trait_type, code)
    }

    /// Builds the numeric tower and the other core nominal classes:
    /// `Never` and `Obj` first (leaves of the dependency order), then
    /// `Float`, `Ratio`, `Int`, `Nat`, `Bool`, `Str`, `NoneType` and
    /// the type-of-type classes.
    fn init_core_classes(&mut self) -> (core: CoreClasses)
        requires
            old(self).classes@.len() == 0,
            old(self).namespace@.len() == 0,
        ensures
            final(self).py_compatible == old(self).py_compatible,
            final(self).wf_basic(),
            core_classes_built(final(self).classes@, core),
            core.never == 0 && core.obj == 1 && core.float == 2 && core.ratio == 3,
            core.int_cls == 4 && core.nat_cls == 5 && core.bool_cls == 6 && core.str_cls == 7,
            core.none_cls == 8 && core.type_cls == 9 && core.class_type == 10,
            core.trait_type == 11 && core.code == 12,
            final(self).classes@.len() == 13,
            final(self).namespace@.len() == 0,
    {
        let never: usize = self.init_never_class();
        let obj: usize = self.init_obj_class();
        let float: usize = self.init_float_class(obj);
        let ratio: usize = self.init_ratio_class(obj);
        let int_cls: usize = self.init_int_class(float);
        let nat_cls: usize = self.init_nat_class(int_cls);
        let bool_cls: usize = self.init_bool_class(nat_cls);
        let str_cls: usize = self.init_str_class(obj);
        let scalars: (usize, usize, usize, usize, usize) = self.init_scalar_type_classes(obj);
        CoreClasses {
            never,
            obj,
            float,
            ratio,
            int_cls,
            nat_cls,
            bool_cls,
            str_cls,
            none_cls: scalars.0,
            type_cls: scalars.1,
            class_type: scalars.2,
            trait_type: scalars.3,
            code: scalars.4,
        }
    }

    /// Builds the generic containers, iterators, callables, mutable
    /// variants and ranges on top of the core classes, and publishes
    /// every finished node into the namespace, with
    /// foreign-compatible aliases where the compatibility mode asks
    /// for them.
    #[verifier::rlimit(100)]
    #[verifier::spinoff_prover]
    #[verifier::rlimit(100)]
    /// Registers the immutable array class: const-generic `concat`,
    /// `push` and `count`, the bounds-checked `__getitem__` and its
    /// published const accessor, and its traits.
    #[verifier::spinoff_prover]
    #[verifier::rlimit(100)]
    fn init_array_class(&mut self, parent: usize) -> (idx: usize)
        requires
            parent < old(self).classes@.len(),
        ensures
            final(self).py_compatible == old(self).py_compatible,
            final(self).namespace@ == old(self).namespace@,
            old(self).wf_basic() ==> final(self).wf_basic(),
            old(self).classes@.len() <= final(self).classes@.len(),
            forall|k: int|
                0 <= k < old(self).classes@.len() ==> (#[trigger] final(self).classes@[k]) == old(self).classes@[k],
            idx == old(self).classes@.len(),
            idx < final(self).classes@.len(),
            final(self).classes@[idx as int].name@ == ("Array")@,
            final(self).classes@[idx as int].superclass == Some(parent),
            has_method_sig(
                final(self).classes@[idx as int].methods@,
                ("concat")@,
                concat_sig_view(),
            ),
            has_method_sig(
                final(self).classes@[idx as int].methods@,
                ("push")@,
                push_sig_view(),
            ),
            has_method_sig(
                final(self).classes@[idx as int].methods@,
                ("__getitem__")@,
                getitem_sig_view(),
            ),
            has_const_subr(
                final(self).classes@[idx as int].consts@,
                ("__getitem__")@,
                ("__array_getitem__")@,
            ),
    {
        let cst = Mutability::Const;
        let im = Mutability::Immutable;
        let pb = Visibility::Public;
        let pv = Visibility::Private;
        let vis = if self.py_compatible {
            pb
        } else {
            pv
        };
        let idx: usize = self.builtin_poly_class(
            "Array",
            vec![ParamSpec::t_nd("T"), ParamSpec::named_nd("N", mono("Nat"))],
            10,
        );
        let _ = self.register_superclass(idx, parent);
        let _ = self.register_marker_trait(idx, poly("Output", vec![ty_tp(mono("T"))]));
        let t_concat = quantify(
            fn1_met(
                array_t(mono("T"), var_tp("N")),
                array_t(mono("T"), var_tp("M")),
                array_t(mono("T"), tp_add(var_tp("N"), var_tp("M"))),
            ),
        );
        proof {
            assert(t_concat.deep() == concat_sig_view());
        }
        let _ = self.register_builtin_py_impl(idx, "concat", t_concat, im, pb, Some("__add__"));
        let ghost mi_concat: int = self.classes@[idx as int].methods@.len() - 1;
        proof {
            assert(self.classes@[idx as int].methods@[mi_concat].name@ == ("concat")@);
            assert(self.classes@[idx as int].methods@[mi_concat].sig.deep()
                == concat_sig_view());
        }
        let t_count = quantify(fn1_met(array_t(mono("T"), var_tp("N")), mono("T"), mono("Nat")));
        let _ = self.register_builtin_py_impl(idx, "count", t_count, im, pb, Some("count"));
        // Add(Array(T, M)): Output = Array(T, N + M),
        // __add__ = Array.concat
        let mut arr_add = MethodTable::builtin_methods(
            Some(poly("Add", vec![ty_tp(array_t(mono("T"), var_tp("M")))])),
            2,
        );
        arr_add.register_builtin_erg_impl(
            "__add__",
            quantify(
                fn1_met(
                    array_t(mono("T"), var_tp("N")),
                    array_t(mono("T"), var_tp("M")),
                    array_t(mono("T"), tp_add(var_tp("N"), var_tp("M"))),
                ),
            ),
            im,
            pb,
        );
        arr_add.register_builtin_const(
            "Output",
            pb,
            ValueObj::builtin_t(array_t(mono("T"), tp_add(var_tp("N"), var_tp("M")))),
        );
        let _ = self.register_trait(idx, array_t(mono("T"), var_tp("N")), arr_add);
        let t_push = quantify(
            fn1_met(
                array_t(mono("T"), var_tp("N")),
                mono("T"),
                array_t(mono("T"), tp_add(var_tp("N"), TyParam::NatLit(1))),
            ),
        );
        proof {
            assert(t_push.deep() == push_sig_view());
        }
        let _ = self.register_builtin_erg_impl(idx, "push", t_push, im, pb);
        let ghost mi_push: int = self.classes@[idx as int].methods@.len() - 1;
        proof {
            assert(self.classes@[idx as int].methods@[mi_push].name@ == ("push")@);
            assert(self.classes@[idx as int].methods@[mi_push].sig.deep() == push_sig_view());
        }
        let n_var_tp = TyParam::Var(("N").to_owned());
        proof {
            assert(n_var_tp.deep() == n_var());
        }
        let one_tp = TyParam::NatLit(1);
        let sub_tp = TyParam::Sub(Box::new(n_var_tp), Box::new(one_tp));
        proof {
            assert(sub_tp.deep() == TpView::Sub(Box::new(n_var()), Box::new(TpView::NatLit(1))));
        }
        let pred_le = crate::ty::Pred::Le(("I").to_owned(), sub_tp);
        proof {
            assert(pred_le.deep() == PredView::Le(
                ("I")@,
                TpView::Sub(Box::new(n_var()), Box::new(TpView::NatLit(1))),
            ));
        }
        let ghost pred_view = pred_le.deep();
        let preds: Vec<crate::ty::Pred> = vec![pred_le];
        proof {
            crate::ty::lemma_deep_pred_seq(preds@);
            assert(crate::ty::deep_pred_seq(preds@) =~= seq![pred_view]);
        }
        let getitem_in = refinement("I", mono("Nat"), preds);
        proof {
            assert(getitem_in.deep() == getitem_index_view());
        }
        let arr_getitem_t = quantify(
            fn1_met(array_t(mono("T"), var_tp("N")), getitem_in, mono("T")),
        );
        proof {
            assert(arr_getitem_t.deep() == getitem_sig_view());
        }
        let _ = self.register_builtin_erg_impl(idx, "__getitem__", arr_getitem_t, cst, pb);
        let ghost mi_getitem: int = self.classes@[idx as int].methods@.len() - 1;
        proof {
            assert(self.classes@[idx as int].methods@[mi_getitem].name@ == ("__getitem__")@);
            assert(self.classes@[idx as int].methods@[mi_getitem].sig.deep()
                == getitem_sig_view());
        }
        let _ = self.register_builtin_const(
            idx,
            "__getitem__",
            pb,
            ValueObj::Subr(ConstSubr::Builtin(("__array_getitem__").to_owned())),
        );
        let ghost ci_getitem: int = self.classes@[idx as int].consts@.len() - 1;
        proof {
            assert(self.classes@[idx as int].consts@[ci_getitem].name@ == ("__getitem__")@);
            assert(self.classes@[idx as int].consts@[ci_getitem].value.deep()
                == crate::value::VView::Subr(
                crate::value::SubrView::Builtin(("__array_getitem__")@),
            ));
        }
        self.register_eq_trait(idx, array_t(mono("T"), var_tp("N")));
        let _ = self.register_marker_trait(idx, mono("Mutizable"));
        let _ = self.register_marker_trait(idx, poly("Seq", vec![ty_tp(mono("T"))]));
        self.register_show(idx, array_t(mono("T"), var_tp("N")));
        let mut arr_iterable = MethodTable::builtin_methods(
            Some(poly("Iterable", vec![ty_tp(mono("T"))])),
            2,
        );
        arr_iterable.register_builtin_py_impl(
            "iter",
            quantify(
                fn0_met(
                    array_t(mono("T"), var_tp("N")),
                    poly("ArrayIterator", vec![ty_tp(mono("T"))]),
                ),
            ),
            im,
            pb,
            Some("__iter__"),
        );
        arr_iterable.register_builtin_const(
            "Iterator",
            vis,
            ValueObj::builtin_t(poly("ArrayIterator", vec![ty_tp(mono("T"))])),
        );
        let _ = self.register_trait(idx, array_t(mono("T"), var_tp("N")), arr_iterable);
        let t_partition = quantify(
            fn1_met(
                array_t(mono("T"), var_tp("N")),
                nd_func(vec![mono("T")], mono("Bool")),
                tuple_t(
                    vec![
                        unknown_len_array_t(mono("T")),
                        unknown_len_array_t(mono("T")),
                    ],
                ),
            ),
        );
        let _ = self.register_builtin_erg_impl(idx, "partition", t_partition, im, pb);
        let t_dedup = quantify(
            fn0_met(array_t(mono("T"), var_tp("N")), unknown_len_array_t(mono("T"))),
        );
        let _ = self.register_builtin_erg_impl(idx, "dedup", t_dedup, im, pb);
        let mut arr_mutz = MethodTable::builtin_methods(Some(mono("Mutizable")), 2);
        arr_mutz.register_builtin_const(
            "MutType!",
            pb,
            ValueObj::builtin_t(poly("Array!", vec![ty_tp(mono("T")), var_tp("N")])),
        );
        let _ = self.register_trait(idx, array_t(mono("T"), var_tp("N")), arr_mutz);

        proof {
            let ms = self.classes@[idx as int].methods@;
            assert(has_method_sig(ms, ("concat")@, concat_sig_view())) by {
                assert(ms[mi_concat].name@ == ("concat")@);
                assert(ms[mi_concat].sig.deep() == concat_sig_view());
            }
            assert(has_method_sig(ms, ("push")@, push_sig_view())) by {
                assert(ms[mi_push].name@ == ("push")@);
                assert(ms[mi_push].sig.deep() == push_sig_view());
            }
            assert(has_method_sig(ms, ("__getitem__")@, getitem_sig_view())) by {
                assert(ms[mi_getitem].name@ == ("__getitem__")@);
                assert(ms[mi_getitem].sig.deep() == getitem_sig_view());
            }
            let es = self.classes@[idx as int].consts@;
            assert(has_const_subr(es, ("__getitem__")@, ("__array_getitem__")@)) by {
                assert(es[ci_getitem].name@ == ("__getitem__")@);
                assert(es[ci_getitem].value.deep() == crate::value::VView::Subr(
                    crate::value::SubrView::Builtin(("__array_getitem__")@),
                ));
            }
        }
        idx
    }

    /// Registers the iterator classes.
    #[verifier::spinoff_prover]
    #[verifier::rlimit(100)]
    fn init_iterator_classes(&mut self, parent: usize) -> (r: (
        usize,
        usize,
        usize,
        usize,
        usize,
        usize,
        usize,
        usize,
    ))
        requires
            parent < old(self).classes@.len(),
        ensures
            final(self).py_compatible == old(self).py_compatible,
            final(self).namespace@ == old(self).namespace@,
            old(self).wf_basic() ==> final(self).wf_basic(),
            old(self).classes@.len() <= final(self).classes@.len(),
            forall|k: int|
                0 <= k < old(self).classes@.len() ==> (#[trigger] final(self).classes@[k]) == old(self).classes@[k],
    {
        let cst = Mutability::Const;
        let im = Mutability::Immutable;
        let pb = Visibility::Public;
        let pv = Visibility::Private;
        let vis = if self.py_compatible {
            pb
        } else {
            pv
        };
        let str_iter: usize = self.builtin_mono_class("StrIterator", 1);
        let _ = self.register_superclass(str_iter, parent);
        let _ = self.register_marker_trait(str_iter, poly("Iterable", vec![ty_tp(mono("Str"))]));
        let arr_iter: usize = self.builtin_poly_class(
            "ArrayIterator",
            vec![ParamSpec::t_nd("T")],
            1,
        );
        let _ = self.register_superclass(arr_iter, parent);
        let _ = self.register_marker_trait(arr_iter, poly("Iterable", vec![ty_tp(mono("T"))]));
        let _ = self.register_marker_trait(arr_iter, poly("Output", vec![ty_tp(mono("T"))]));
        let range_iter: usize = self.builtin_poly_class(
            "RangeIterator",
            vec![ParamSpec::t_nd("T")],
            1,
        );
        let _ = self.register_superclass(range_iter, parent);
        let _ = self.register_marker_trait(range_iter, poly("Iterable", vec![ty_tp(mono("T"))]));
        let _ = self.register_marker_trait(range_iter, poly("Output", vec![ty_tp(mono("T"))]));
        let enumerate: usize = self.builtin_poly_class(
            "Enumerate",
            vec![ParamSpec::t_nd("T")],
            2,
        );
        let _ = self.register_superclass(enumerate, parent);
        let _ = self.register_marker_trait(enumerate, poly("Iterable", vec![ty_tp(mono("T"))]));
        let filter: usize = self.builtin_poly_class("Filter", vec![ParamSpec::t_nd("T")], 2);
        let _ = self.register_superclass(filter, parent);
        let _ = self.register_marker_trait(filter, poly("Iterable", vec![ty_tp(mono("T"))]));
        let map_cls: usize = self.builtin_poly_class("Map", vec![ParamSpec::t_nd("T")], 2);
        let _ = self.register_superclass(map_cls, parent);
        let _ = self.register_marker_trait(map_cls, poly("Iterable", vec![ty_tp(mono("T"))]));
        let reversed: usize = self.builtin_poly_class("Reversed", vec![ParamSpec::t_nd("T")], 2);
        let _ = self.register_superclass(reversed, parent);
        let _ = self.register_marker_trait(reversed, poly("Iterable", vec![ty_tp(mono("T"))]));
        let zip_cls: usize = self.builtin_poly_class(
            "Zip",
            vec![ParamSpec::t_nd("T"), ParamSpec::t_nd("U")],
            2,
        );
        let _ = self.register_superclass(zip_cls, parent);
        let _ = self.register_marker_trait(
            zip_cls,
            poly("Iterable", vec![ty_tp(tuple_t(vec![mono("T"), mono("U")]))]),
        );

        (str_iter, arr_iter, range_iter, enumerate, filter, map_cls, reversed, zip_cls)
    }

    /// Registers the mutable variants with their mutating member
    /// tables; the mutable array's `push!`/`insert!` grow the
    /// declared length by one and `pop!`/`remove!` shrink it by one.
    #[verifier::spinoff_prover]
    #[verifier::rlimit(100)]
    fn init_mut_classes(&mut self, core: &CoreClasses, arr: usize, set_cls: usize) -> (r: (
        (usize, usize, usize, usize, usize),
        (usize, usize, usize, usize, usize),
    ))
        requires
            core.obj < old(self).classes@.len(),
            core.float < old(self).classes@.len(),
            core.ratio < old(self).classes@.len(),
            core.int_cls < old(self).classes@.len(),
            core.nat_cls < old(self).classes@.len(),
            core.bool_cls < old(self).classes@.len(),
            core.str_cls < old(self).classes@.len(),
            arr < old(self).classes@.len(),
            set_cls < old(self).classes@.len(),
        ensures
            final(self).py_compatible == old(self).py_compatible,
            final(self).namespace@ == old(self).namespace@,
            old(self).wf_basic() ==> final(self).wf_basic(),
            old(self).classes@.len() <= final(self).classes@.len(),
            forall|k: int|
                0 <= k < old(self).classes@.len() ==> (#[trigger] final(self).classes@[k]) == old(self).classes@[k],
            r.1.3 < final(self).classes@.len(),
            (arr as int) < (r.1.3 as int),
            final(self).classes@[r.1.3 as int].name@ == ("Array!")@,
            final(self).classes@[r.1.3 as int].superclass == Some(arr),
    {
        let cst = Mutability::Const;
        let im = Mutability::Immutable;
        let pb = Visibility::Public;
        let pv = Visibility::Private;
        let vis = if self.py_compatible {
            pb
        } else {
            pv
        };
        let file_mut: usize = self.builtin_mono_class("File!", 2);
        let _ = self.register_superclass(file_mut, core.obj);
        let obj_mut: usize = self.builtin_mono_class("Obj!", 2);
        let _ = self.register_superclass(obj_mut, core.obj);
        let t_update = pr_met(
            ref_mut_t(mono("Obj!"), mono("Obj!")),
            vec![nd_func(vec![mono("Obj")], mono("Obj"))],
            mono("NoneType"),
        );
        let _ = self.register_builtin_py_impl(obj_mut, "update!", t_update, im, pb, Some("update"));
        let int_mut: usize = self.builtin_mono_class("Int!", 2);
        let _ = self.register_superclass(int_mut, core.int_cls);
        let t_inc = pr_met(
            ref_mut_t(mono("Int!"), mono("Int!")),
            vec![mono("Nat")],
            mono("NoneType"),
        );
        let _ = self.register_builtin_py_impl(int_mut, "inc!", t_inc, im, pb, Some("inc"));
        let t_dec = pr_met(
            ref_mut_t(mono("Int!"), mono("Int!")),
            vec![mono("Nat")],
            mono("NoneType"),
        );
        let _ = self.register_builtin_py_impl(int_mut, "dec!", t_dec, im, pb, Some("dec"));
        let t_update = pr_met(
            ref_mut_t(mono("Int!"), mono("Int!")),
            vec![nd_func(vec![mono("Int")], mono("Int"))],
            mono("NoneType"),
        );
        let _ = self.register_builtin_py_impl(int_mut, "update!", t_update, im, pb, Some("update"));
        let nat_mut: usize = self.builtin_mono_class("Nat!", 2);
        let _ = self.register_superclass(nat_mut, core.nat_cls);
        let t_inc = pr_met(
            ref_mut_t(mono("Nat!"), mono("Nat!")),
            vec![mono("Nat")],
            mono("NoneType"),
        );
        let _ = self.register_builtin_py_impl(nat_mut, "inc!", t_inc, im, pb, Some("inc"));
        let t_dec = pr_met(
            ref_mut_t(mono("Nat!"), mono("Nat!")),
            vec![mono("Nat")],
            mono("NoneType"),
        );
        let _ = self.register_builtin_py_impl(nat_mut, "dec!", t_dec, im, pb, Some("dec"));
        let t_update = pr_met(
            ref_mut_t(mono("Nat!"), mono("Nat!")),
            vec![nd_func(vec![mono("Nat")], mono("Nat"))],
            mono("NoneType"),
        );
        let _ = self.register_builtin_py_impl(nat_mut, "update!", t_update, im, pb, Some("update"));
        let float_mut: usize = self.builtin_mono_class("Float!", 2);
        let _ = self.register_superclass(float_mut, core.float);
        let t_update = pr_met(
            ref_mut_t(mono("Float!"), mono("Float!")),
            vec![nd_func(vec![mono("Float")], mono("Float"))],
            mono("NoneType"),
        );
        let _ = self.register_builtin_py_impl(float_mut, "update!", t_update, im, pb, Some("update"));
        let ratio_mut: usize = self.builtin_mono_class("Ratio!", 2);
        let _ = self.register_superclass(ratio_mut, core.ratio);
        let t_update = pr_met(
            ref_mut_t(mono("Ratio!"), mono("Ratio!")),
            vec![nd_func(vec![mono("Ratio")], mono("Ratio"))],
            mono("NoneType"),
        );
        let _ = self.register_builtin_py_impl(ratio_mut, "update!", t_update, im, pb, Some("update"));
        let bool_mut: usize = self.builtin_mono_class("Bool!", 2);
        let _ = self.register_superclass(bool_mut, core.bool_cls);
        let t_invert = pr_met(
            ref_mut_t(mono("Bool!"), mono("Bool!")),
            Vec::new(),
            mono("NoneType"),
        );
        let _ = self.register_builtin_py_impl(bool_mut, "invert!", t_invert, im, pb, Some("invert"));
        let t_update = pr_met(
            ref_mut_t(mono("Bool!"), mono("Bool!")),
            vec![nd_func(vec![mono("Bool")], mono("Bool"))],
            mono("NoneType"),
        );
        let _ = self.register_builtin_py_impl(bool_mut, "update!", t_update, im, pb, Some("update"));
        let str_mut: usize = self.builtin_mono_class("Str!", 2);
        let _ = self.register_superclass(str_mut, core.str_cls);
        let t_push_str = pr_met(
            ref_mut_t(mono("Str!"), mono("Str!")),
            vec![mono("Str")],
            mono("NoneType"),
        );
        let _ = self.register_builtin_py_impl(str_mut, "push!", t_push_str, im, pb, Some("push"));
        let t_update = pr_met(
            ref_mut_t(mono("Str!"), mono("Str!")),
            vec![nd_func(vec![mono("Str")], mono("Str"))],
            mono("NoneType"),
        );
        let _ = self.register_builtin_py_impl(str_mut, "update!", t_update, im, pb, Some("update"));
        let arr_mut: usize = self.builtin_poly_class(
            "Array!",
            vec![ParamSpec::t_nd("T"), ParamSpec::named_nd("N", mono("Nat"))],
            2,
        );
        let _ = self.register_superclass(arr_mut, arr);
        let arr_mut_n = poly("Array!", vec![ty_tp(mono("T")), var_tp("N")]);
        let arr_mut_n1 = poly(
            "Array!",
            vec![ty_tp(mono("T")), tp_add(var_tp("N"), TyParam::NatLit(1))],
        );
        let arr_mut_n_less = poly(
            "Array!",
            vec![ty_tp(mono("T")), tp_sub(var_tp("N"), TyParam::NatLit(1))],
        );
        let t_push_mut = quantify(
            pr_met(
                ref_mut_t(arr_mut_n.clone(), arr_mut_n1.clone()),
                vec![mono("T")],
                mono("NoneType"),
            ),
        );
        let _ = self.register_builtin_py_impl(
            arr_mut,
            "push!",
            t_push_mut,
            im,
            pb,
            Some("append"),
        );

        let t_pop_mut = quantify(
            pr_met(ref_mut_t(arr_mut_n.clone(), arr_mut_n_less.clone()), Vec::new(), mono("T")),
        );
        let _ = self.register_builtin_py_impl(arr_mut, "pop!", t_pop_mut, im, pb, Some("pop"));

        let t_insert_mut = quantify(
            pr_met(
                ref_mut_t(arr_mut_n.clone(), arr_mut_n1),
                vec![mono("Nat"), mono("T")],
                mono("NoneType"),
            ),
        );
        let _ = self.register_builtin_py_impl(
            arr_mut,
            "insert!",
            t_insert_mut,
            im,
            pb,
            Some("insert"),
        );
        let t_remove_mut = quantify(
            pr_met(
                ref_mut_t(arr_mut_n.clone(), arr_mut_n_less),
                vec![mono("T")],
                mono("NoneType"),
            ),
        );
        let _ = self.register_builtin_py_impl(
            arr_mut,
            "remove!",
            t_remove_mut,
            im,
            pb,
            Some("remove"),
        );
        let zero_len = poly("Array!", vec![ty_tp(mono("T")), TyParam::NatLit(0)]);
        let t_clear_mut = quantify(
            pr_met(ref_mut_t(arr_mut_n.clone(), zero_len), Vec::new(), mono("NoneType")),
        );
        let _ = self.register_builtin_py_impl(
            arr_mut,
            "clear!",
            t_clear_mut,
            im,
            pb,
            Some("clear"),
        );
        let t_sort_mut = quantify(
            pr_met(
                ref_mut_t(arr_mut_n.clone(), arr_mut_n),
                vec![nd_func(vec![mono("T"), mono("T")], mono("Ordering"))],
                mono("NoneType"),
            ),
        );
        let _ = self.register_builtin_py_impl(arr_mut, "sort!", t_sort_mut, im, pb, Some("sort"));
        let set_mut: usize = self.builtin_poly_class(
            "Set!",
            vec![ParamSpec::t_nd("T"), ParamSpec::named_nd("N", mono("Nat"))],
            2,
        );
        let _ = self.register_superclass(set_mut, set_cls);

        ((file_mut, obj_mut, int_mut, nat_mut, float_mut), (ratio_mut, bool_mut, str_mut, arr_mut, set_mut))
    }

    /// Registers the callable classes.
    #[verifier::spinoff_prover]
    fn init_callable_classes(&mut self, parent: usize) -> (r: (
        usize,
        usize,
        usize,
        usize,
        usize,
        usize,
        usize,
        usize,
    ))
        requires
            parent < old(self).classes@.len(),
        ensures
            final(self).py_compatible == old(self).py_compatible,
            final(self).namespace@ == old(self).namespace@,
            old(self).wf_basic() ==> final(self).wf_basic(),
            old(self).classes@.len() <= final(self).classes@.len(),
            forall|k: int|
                0 <= k < old(self).classes@.len() ==> (#[trigger] final(self).classes@[k]) == old(self).classes@[k],
    {
        let cst = Mutability::Const;
        let im = Mutability::Immutable;
        let pb = Visibility::Public;
        let pv = Visibility::Private;
        let vis = if self.py_compatible {
            pb
        } else {
            pv
        };
        let g_callable: usize = self.builtin_mono_class("GenericCallable", 2);
        let _ = self.register_superclass(g_callable, parent);
        let t_return = quantify(fn1_met(mono("GenericCallable"), mono("Obj"), mono("Never")));
        let _ = self.register_builtin_erg_impl(g_callable, "return", t_return, im, pb);
        let g_generator: usize = self.builtin_mono_class("GenericGenerator", 2);
        let _ = self.register_superclass(g_generator, g_callable);
        let t_yield = quantify(fn1_met(mono("GenericGenerator"), mono("Obj"), mono("Never")));
        let _ = self.register_builtin_erg_impl(g_generator, "yield", t_yield, im, pb);
        let proc_cls: usize = self.builtin_mono_class("Proc", 2);
        let _ = self.register_superclass(proc_cls, g_callable);
        let named_proc: usize = self.builtin_mono_class("NamedProc", 2);
        let _ = self.register_superclass(named_proc, proc_cls);
        let _ = self.register_marker_trait(named_proc, mono("Named"));
        let func_cls: usize = self.builtin_mono_class("Func", 2);
        let _ = self.register_superclass(func_cls, proc_cls);
        let named_func: usize = self.builtin_mono_class("NamedFunc", 2);
        let _ = self.register_superclass(named_func, func_cls);
        let _ = self.register_marker_trait(named_func, mono("Named"));
        let quant: usize = self.builtin_mono_class("Quantified", 2);
        let _ = self.register_superclass(quant, proc_cls);
        let qfunc: usize = self.builtin_mono_class("QuantifiedFunc", 2);
        let _ = self.register_superclass(qfunc, func_cls);

        (g_callable, g_generator, proc_cls, named_proc, func_cls, named_func, quant, qfunc)
    }

    /// Registers the module classes.
    #[verifier::spinoff_prover]
    fn init_module_classes(&mut self, parent: usize) -> (r: (usize, usize, usize))
        requires
            parent < old(self).classes@.len(),
        ensures
            final(self).py_compatible == old(self).py_compatible,
            final(self).namespace@ == old(self).namespace@,
            old(self).wf_basic() ==> final(self).wf_basic(),
            old(self).classes@.len() <= final(self).classes@.len(),
            forall|k: int|
                0 <= k < old(self).classes@.len() ==> (#[trigger] final(self).classes@[k]) == old(self).classes@[k],
    {
        let cst = Mutability::Const;
        let im = Mutability::Immutable;
        let pb = Visibility::Public;
        let pv = Visibility::Private;
        let vis = if self.py_compatible {
            pb
        } else {
            pv
        };
        let g_module: usize = self.builtin_mono_class("GenericModule", 2);
        let _ = self.register_superclass(g_module, parent);
        let _ = self.register_marker_trait(g_module, mono("Named"));
        self.register_eq_trait(g_module, mono("GenericModule"));
        let module_cls: usize = self.builtin_poly_class(
            "Module",
            vec![ParamSpec::named_nd("Path", mono("Str"))],
            2,
        );
        let _ = self.register_superclass(module_cls, g_module);
        let py_module_cls: usize = self.builtin_poly_class(
            "PyModule",
            vec![ParamSpec::named_nd("Path", mono("Str"))],
            2,
        );
        let _ = self.register_superclass(py_module_cls, g_module);

        (g_module, module_cls, py_module_cls)
    }

    /// Registers the set, dictionary, bytes, tuple, record and union
    /// classes.
    #[verifier::spinoff_prover]
    #[verifier::rlimit(100)]
    fn init_collection_classes(&mut self, parent: usize) -> (r: (
        usize,
        usize,
        usize,
        usize,
        usize,
        usize,
        usize,
        usize,
    ))
        requires
            parent < old(self).classes@.len(),
        ensures
            final(self).py_compatible == old(self).py_compatible,
            final(self).namespace@ == old(self).namespace@,
            old(self).wf_basic() ==> final(self).wf_basic(),
            old(self).classes@.len() <= final(self).classes@.len(),
            forall|k: int|
                0 <= k < old(self).classes@.len() ==> (#[trigger] final(self).classes@[k]) == old(self).classes@[k],
            r.0 < final(self).classes@.len(),
    {
        let cst = Mutability::Const;
        let im = Mutability::Immutable;
        let pb = Visibility::Public;
        let pv = Visibility::Private;
        let vis = if self.py_compatible {
            pb
        } else {
            pv
        };
        let set_cls: usize = self.builtin_poly_class(
            "Set",
            vec![ParamSpec::t_nd("T"), ParamSpec::named_nd("N", mono("Nat"))],
            10,
        );
        let _ = self.register_superclass(set_cls, parent);
        let _ = self.register_marker_trait(set_cls, poly("Output", vec![ty_tp(mono("T"))]));
        self.register_eq_trait(set_cls, set_t(mono("T"), var_tp("N")));
        let mut set_mutz = MethodTable::builtin_methods(Some(mono("Mutizable")), 2);
        set_mutz.register_builtin_const(
            "MutType!",
            pb,
            ValueObj::builtin_t(poly("Set!", vec![ty_tp(mono("T")), var_tp("N")])),
        );
        let _ = self.register_trait(set_cls, set_t(mono("T"), var_tp("N")), set_mutz);

        /* Dict */
        let g_dict: usize = self.builtin_mono_class("GenericDict", 2);
        let _ = self.register_superclass(g_dict, parent);
        self.register_eq_trait(g_dict, mono("GenericDict"));
        let dict_get_t = quantify(
            fn1_met(mono("GenericDict"), mono("T"), or(mono("T"), mono("NoneType"))),
        );
        let _ = self.register_builtin_erg_impl(g_dict, "get", dict_get_t, im, pb);
        let dict_cls: usize = self.builtin_poly_class(
            "Dict",
            vec![ParamSpec::t_nd("K"), ParamSpec::t_nd("V")],
            10,
        );
        let _ = self.register_superclass(dict_cls, g_dict);
        let _ = self.register_marker_trait(dict_cls, poly("Output", vec![ty_tp(mono("V"))]));
        let dict_getitem_t = quantify(
            fn1_met(dict_t(mono("K"), mono("V")), mono("K"), mono("V")),
        );
        let _ = self.register_builtin_erg_impl(dict_cls, "__getitem__", dict_getitem_t, cst, pb);
        let _ = self.register_builtin_const(
            dict_cls,
            "__getitem__",
            pb,
            ValueObj::Subr(ConstSubr::Builtin(("__dict_getitem__").to_owned())),
        );

        /* Bytes */
        let bytes: usize = self.builtin_mono_class("Bytes", 2);
        let _ = self.register_superclass(bytes, parent);
        self.register_eq_trait(bytes, mono("Bytes"));
        self.register_show(bytes, mono("Bytes"));

        /* Tuple and records */
        let g_tuple: usize = self.builtin_mono_class("GenericTuple", 2);
        let _ = self.register_superclass(g_tuple, parent);
        self.register_eq_trait(g_tuple, mono("GenericTuple"));
        let tuple_cls: usize = self.builtin_poly_class(
            "Tuple",
            vec![ParamSpec::t_nd("Ts")],
            2,
        );
        let _ = self.register_superclass(tuple_cls, g_tuple);
        let record: usize = self.builtin_mono_class("Record", 2);
        let _ = self.register_superclass(record, parent);

        /* Union */
        let union_cls: usize = self.builtin_poly_class(
            "Or",
            vec![ParamSpec::t_nd("L"), ParamSpec::t_nd("R")],
            2,
        );
        let _ = self.register_superclass(union_cls, parent);

        (set_cls, g_dict, dict_cls, bytes, g_tuple, tuple_cls, record, union_cls)
    }

    /// Registers the range class with its bounded accessor.
    #[verifier::spinoff_prover]
    #[verifier::rlimit(100)]
    fn init_range_class(&mut self, parent: usize) -> (idx: usize)
        requires
            parent < old(self).classes@.len(),
        ensures
            final(self).py_compatible == old(self).py_compatible,
            final(self).namespace@ == old(self).namespace@,
            old(self).wf_basic() ==> final(self).wf_basic(),
            old(self).classes@.len() <= final(self).classes@.len(),
            forall|k: int|
                0 <= k < old(self).classes@.len() ==> (#[trigger] final(self).classes@[k]) == old(self).classes@[k],
    {
        let cst = Mutability::Const;
        let im = Mutability::Immutable;
        let pb = Visibility::Public;
        let pv = Visibility::Private;
        let vis = if self.py_compatible {
            pb
        } else {
            pv
        };
        let range_cls: usize = self.builtin_poly_class("Range", vec![ParamSpec::t_nd("T")], 2);
        let _ = self.register_superclass(range_cls, parent);
        let _ = self.register_marker_trait(range_cls, poly("Output", vec![ty_tp(mono("T"))]));
        let _ = self.register_marker_trait(range_cls, poly("Seq", vec![ty_tp(mono("T"))]));
        self.register_eq_trait(range_cls, range_t(mono("T")));
        let mut range_iterable = MethodTable::builtin_methods(
            Some(poly("Iterable", vec![ty_tp(mono("T"))])),
            2,
        );
        range_iterable.register_builtin_py_impl(
            "iter",
            quantify(fn0_met(range_t(mono("T")), poly("RangeIterator", vec![ty_tp(mono("T"))]))),
            im,
            pb,
            Some("__iter__"),
        );
        range_iterable.register_builtin_const(
            "Iterator",
            vis,
            ValueObj::builtin_t(poly("RangeIterator", vec![ty_tp(mono("T"))])),
        );
        let _ = self.register_trait(range_cls, range_t(mono("T")), range_iterable);
        let range_getitem_t = quantify(fn1_met(range_t(mono("T")), mono("Nat"), mono("T")));
        let _ = self.register_builtin_erg_impl(range_cls, "__getitem__", range_getitem_t, cst, pb);
        let _ = self.register_builtin_const(
            range_cls,
            "__getitem__",
            pb,
            ValueObj::Subr(ConstSubr::Builtin(("__range_getitem__").to_owned())),
        );

        range_cls
    }

    /// Publishes the core classes into the namespace under their
    /// canonical names and compatibility-dependent aliases.
    #[verifier::spinoff_prover]
    #[verifier::rlimit(100)]
    fn publish_core_classes(&mut self, core: &CoreClasses)
        requires
            core.never == 0 && core.obj == 1 && core.float == 2 && core.ratio == 3,
            core.int_cls == 4 && core.nat_cls == 5 && core.bool_cls == 6 && core.str_cls == 7,
            core.none_cls == 8 && core.type_cls == 9 && core.class_type == 10,
            core.trait_type == 11 && core.code == 12,
            13 <= old(self).classes@.len(),
            old(self).classes@[0].name@ == ("Never")@,
            old(self).classes@[1].name@ == ("Obj")@,
            old(self).classes@[2].name@ == ("Float")@,
            old(self).classes@[3].name@ == ("Ratio")@,
            old(self).classes@[4].name@ == ("Int")@,
            old(self).classes@[5].name@ == ("Nat")@,
            old(self).classes@[6].name@ == ("Bool")@,
            old(self).classes@[7].name@ == ("Str")@,
            old(self).classes@[8].name@ == ("NoneType")@,
            old(self).classes@[9].name@ == ("Type")@,
            old(self).classes@[10].name@ == ("ClassType")@,
            old(self).classes@[11].name@ == ("TraitType")@,
            old(self).classes@[12].name@ == ("Code")@,
        ensures
            final(self).py_compatible == old(self).py_compatible,
            old(self).wf_basic() ==> final(self).wf_basic(),
            final(self).classes@.len() == old(self).classes@.len(),
            forall|k: int|
                0 <= k < final(self).classes@.len() ==> (#[trigger] final(self).classes@[k]).name@
                    == old(self).classes@[k].name@ && final(self).classes@[k].superclass == old(self).classes@[k].superclass && final(self).classes@[k].markers@ == old(self).classes@[k].markers@,
            forall|k: int|
                0 <= k < final(self).classes@.len() ==> (#[trigger] final(self).classes@[k]).methods@
                    == old(self).classes@[k].methods@ && final(self).classes@[k].consts@ == old(self).classes@[k].consts@,
            forall|k: int| 0 <= k < 13 ==> (#[trigger] final(self).classes@[k]).published,
            builtin_namespace_built(final(self).namespace@, final(self).py_compatible),
            13 <= final(self).classes@.len(),
    {
        let cst = Mutability::Const;
        let pv = Visibility::Private;
        let pb = Visibility::Public;
        let vis = if self.py_compatible {
            pb
        } else {
            pv
        };
        let _ = self.register_builtin_type(core.never, mono("Never"), vis, cst, Some("Never"));
        let ghost k_never: int = self.namespace@.len() - 2;
        let _ = self.register_builtin_type(core.obj, mono("Obj"), vis, cst, Some("object"));
        let ghost k_obj: int = self.namespace@.len() - 2;
        let _ = self.register_builtin_type(core.int_cls, mono("Int"), vis, cst, Some("int"));
        let ghost k_int: int = self.namespace@.len() - 2;
        let _ = self.register_builtin_type(core.nat_cls, mono("Nat"), vis, cst, Some("Nat"));
        let ghost k_nat: int = self.namespace@.len() - 2;
        let _ = self.register_builtin_type(core.float, mono("Float"), vis, cst, Some("float"));
        let ghost k_float: int = self.namespace@.len() - 2;
        let _ = self.register_builtin_type(core.ratio, mono("Ratio"), vis, cst, Some("Ratio"));
        let bool_alias = if self.py_compatible {
            "bool"
        } else {
            "Bool"
        };
        let _ = self.register_builtin_type(
            core.bool_cls,
            mono("Bool"),
            vis,
            cst,
            Some(bool_alias),
        );
        let ghost k_bool: int = self.namespace@.len() - 2;
        let str_alias = if self.py_compatible {
            "str"
        } else {
            "Str"
        };
        let _ = self.register_builtin_type(core.str_cls, mono("Str"), vis, cst, Some(str_alias));
        let ghost k_str: int = self.namespace@.len() - 2;
        let _ = self.register_builtin_type(
            core.none_cls,
            mono("NoneType"),
            vis,
            cst,
            Some("NoneType"),
        );
        let _ = self.register_builtin_type(core.type_cls, mono("Type"), vis, cst, Some("type"));
        let ghost k_type: int = self.namespace@.len() - 2;
        let _ = self.register_builtin_type(
            core.class_type,
            mono("ClassType"),
            vis,
            cst,
            Some("ClassType"),
        );
        let _ = self.register_builtin_type(
            core.trait_type,
            mono("TraitType"),
            vis,
            cst,
            Some("TraitType"),
        );
        let _ = self.register_builtin_type(core.code, mono("Code"), vis, cst, Some("CodeType"));
        proof {
            let ns = self.namespace@;
            let cs = self.classes@;
            assert(ns_maps(ns, ("Never")@, 0)) by {
                assert(ns[k_never].0@ == ("Never")@ && ns[k_never].1 == 0);
            }
            assert(ns_maps(ns, ("Obj")@, 1)) by {
                assert(ns[k_obj].0@ == ("Obj")@ && ns[k_obj].1 == 1);
            }
            assert(ns_maps(ns, ("object")@, 1)) by {
                assert(ns[k_obj + 1].0@ == ("object")@ && ns[k_obj + 1].1 == 1);
            }
            assert(ns_maps(ns, ("Int")@, 4)) by {
                assert(ns[k_int].0@ == ("Int")@ && ns[k_int].1 == 4);
            }
            assert(ns_maps(ns, ("int")@, 4)) by {
                assert(ns[k_int + 1].0@ == ("int")@ && ns[k_int + 1].1 == 4);
            }
            assert(ns_maps(ns, ("Nat")@, 5)) by {
                assert(ns[k_nat].0@ == ("Nat")@ && ns[k_nat].1 == 5);
            }
            assert(ns_maps(ns, ("Float")@, 2)) by {
                assert(ns[k_float].0@ == ("Float")@ && ns[k_float].1 == 2);
            }
            assert(ns_maps(ns, ("float")@, 2)) by {
                assert(ns[k_float + 1].0@ == ("float")@ && ns[k_float + 1].1 == 2);
            }
            assert(ns_maps(ns, ("Bool")@, 6)) by {
                assert(ns[k_bool].0@ == ("Bool")@ && ns[k_bool].1 == 6);
            }
            if self.py_compatible {
                assert(ns_maps(ns, ("bool")@, 6)) by {
                    assert(ns[k_bool + 1].0@ == ("bool")@ && ns[k_bool + 1].1 == 6);
                }
            }
            assert(ns_maps(ns, ("Str")@, 7)) by {
                assert(ns[k_str].0@ == ("Str")@ && ns[k_str].1 == 7);
            }
            if self.py_compatible {
                assert(ns_maps(ns, ("str")@, 7)) by {
                    assert(ns[k_str + 1].0@ == ("str")@ && ns[k_str + 1].1 == 7);
                }
            }
            assert(ns_maps(ns, ("Type")@, 9)) by {
                assert(ns[k_type].0@ == ("Type")@ && ns[k_type].1 == 9);
            }
            assert(ns_maps(ns, ("type")@, 9)) by {
                assert(ns[k_type + 1].0@ == ("type")@ && ns[k_type + 1].1 == 9);
            }
        }
    }

    /// Publishes the module, array, set and dictionary classes.
    #[verifier::spinoff_prover]
    #[verifier::rlimit(100)]
    fn publish_collection_classes(
        &mut self,
        mods: (usize, usize, usize),
        arr: usize,
        colls: (usize, usize, usize, usize, usize, usize, usize, usize),
    )
        ensures
            final(self).py_compatible == old(self).py_compatible,
            old(self).wf_basic() ==> final(self).wf_basic(),
            final(self).classes@.len() == old(self).classes@.len(),
            forall|k: int|
                0 <= k < final(self).classes@.len() ==> (#[trigger] final(self).classes@[k]).name@
                    == old(self).classes@[k].name@ && final(self).classes@[k].superclass == old(self).classes@[k].superclass && final(self).classes@[k].markers@ == old(self).classes@[k].markers@,
            forall|k: int|
                0 <= k < final(self).classes@.len() && old(self).classes@[k].published ==> (
                #[trigger] final(self).classes@[k]).published,
            forall|k: int|
                0 <= k < final(self).classes@.len() ==> (#[trigger] final(self).classes@[k]).methods@
                    == old(self).classes@[k].methods@ && final(self).classes@[k].consts@ == old(self).classes@[k].consts@,
            forall|k: int|
                0 <= k < old(self).namespace@.len() ==> (#[trigger] final(self).namespace@[k])
                    == old(self).namespace@[k],
            old(self).namespace@.len() <= final(self).namespace@.len(),
    {
        let cst = Mutability::Const;
        let pv = Visibility::Private;
        let pb = Visibility::Public;
        let vis = if self.py_compatible {
            pb
        } else {
            pv
        };
        let g_module: usize = mods.0;
        let py_module_cls: usize = mods.2;
        let set_cls: usize = colls.0;
        let g_dict: usize = colls.1;
        let dict_cls: usize = colls.2;
        let _ = self.register_builtin_type(
            g_module,
            mono("GenericModule"),
            pv,
            cst,
            Some("ModuleType"),
        );
        let _ = self.register_builtin_type(
            py_module_cls,
            poly("PyModule", vec![var_tp("Path")]),
            vis,
            cst,
            Some("ModuleType"),
        );
        let _ = self.register_builtin_type(
            arr,
            array_t(mono("T"), var_tp("N")),
            vis,
            cst,
            Some("list"),
        );
        let _ = self.register_builtin_type(
            set_cls,
            set_t(mono("T"), var_tp("N")),
            vis,
            cst,
            Some("set"),
        );
        let _ = self.register_builtin_type(g_dict, mono("GenericDict"), vis, cst, Some("dict"));
        let _ = self.register_builtin_type(
            dict_cls,
            dict_t(mono("K"), mono("V")),
            vis,
            cst,
            Some("dict"),
        );
    }

    /// Publishes the bytes, tuple, record and union classes.
    #[verifier::spinoff_prover]
    #[verifier::rlimit(100)]
    fn publish_record_classes(
        &mut self,
        colls: (usize, usize, usize, usize, usize, usize, usize, usize),
    )
        ensures
            final(self).py_compatible == old(self).py_compatible,
            old(self).wf_basic() ==> final(self).wf_basic(),
            final(self).classes@.len() == old(self).classes@.len(),
            forall|k: int|
                0 <= k < final(self).classes@.len() ==> (#[trigger] final(self).classes@[k]).name@
                    == old(self).classes@[k].name@ && final(self).classes@[k].superclass == old(self).classes@[k].superclass && final(self).classes@[k].markers@ == old(self).classes@[k].markers@,
            forall|k: int|
                0 <= k < final(self).classes@.len() && old(self).classes@[k].published ==> (
                #[trigger] final(self).classes@[k]).published,
            forall|k: int|
                0 <= k < final(self).classes@.len() ==> (#[trigger] final(self).classes@[k]).methods@
                    == old(self).classes@[k].methods@ && final(self).classes@[k].consts@ == old(self).classes@[k].consts@,
            forall|k: int|
                0 <= k < old(self).namespace@.len() ==> (#[trigger] final(self).namespace@[k])
                    == old(self).namespace@[k],
            old(self).namespace@.len() <= final(self).namespace@.len(),
    {
        let cst = Mutability::Const;
        let pv = Visibility::Private;
        let pb = Visibility::Public;
        let vis = if self.py_compatible {
            pb
        } else {
            pv
        };
        let bytes: usize = colls.3;
        let g_tuple: usize = colls.4;
        let tuple_cls: usize = colls.5;
        let record: usize = colls.6;
        let union_cls: usize = colls.7;
        let _ = self.register_builtin_type(bytes, mono("Bytes"), vis, cst, Some("bytes"));
        let _ = self.register_builtin_type(g_tuple, mono("GenericTuple"), pv, cst, Some("tuple"));
        let _ = self.register_builtin_type(
            tuple_cls,
            poly("Tuple", vec![var_tp("Ts")]),
            vis,
            cst,
            Some("tuple"),
        );
        let _ = self.register_builtin_type(record, mono("Record"), vis, cst, Some("Record"));
        let _ = self.register_builtin_type(
            union_cls,
            poly("Or", vec![ty_tp(mono("L")), ty_tp(mono("R"))]),
            vis,
            cst,
            Some("Union"),
        );
    }

    /// Publishes the iterator classes.
    #[verifier::spinoff_prover]
    #[verifier::rlimit(100)]
    fn publish_iterator_classes(
        &mut self,
        iters: (usize, usize, usize, usize, usize, usize, usize, usize),
    )
        ensures
            final(self).py_compatible == old(self).py_compatible,
            old(self).wf_basic() ==> final(self).wf_basic(),
            final(self).classes@.len() == old(self).classes@.len(),
            forall|k: int|
                0 <= k < final(self).classes@.len() ==> (#[trigger] final(self).classes@[k]).name@
                    == old(self).classes@[k].name@ && final(self).classes@[k].superclass == old(self).classes@[k].superclass && final(self).classes@[k].markers@ == old(self).classes@[k].markers@,
            forall|k: int|
                0 <= k < final(self).classes@.len() && old(self).classes@[k].published ==> (
                #[trigger] final(self).classes@[k]).published,
            forall|k: int|
                0 <= k < final(self).classes@.len() ==> (#[trigger] final(self).classes@[k]).methods@
                    == old(self).classes@[k].methods@ && final(self).classes@[k].consts@ == old(self).classes@[k].consts@,
            forall|k: int|
                0 <= k < old(self).namespace@.len() ==> (#[trigger] final(self).namespace@[k])
                    == old(self).namespace@[k],
            old(self).namespace@.len() <= final(self).namespace@.len(),
    {
        let cst = Mutability::Const;
        let pv = Visibility::Private;
        let pb = Visibility::Public;
        let vis = if self.py_compatible {
            pb
        } else {
            pv
        };
        let str_iter: usize = iters.0;
        let arr_iter: usize = iters.1;
        let range_iter: usize = iters.2;
        let enumerate: usize = iters.3;
        let filter: usize = iters.4;
        let map_cls: usize = iters.5;
        let reversed: usize = iters.6;
        let zip_cls: usize = iters.7;
        let _ = self.register_builtin_type(
            str_iter,
            mono("StrIterator"),
            pv,
            cst,
            Some("str_iterator"),
        );
        let _ = self.register_builtin_type(
            arr_iter,
            poly("ArrayIterator", vec![ty_tp(mono("T"))]),
            pv,
            cst,
            Some("array_iterator"),
        );
        let _ = self.register_builtin_type(
            range_iter,
            poly("RangeIterator", vec![ty_tp(mono("T"))]),
            pv,
            cst,
            Some("RangeIterator"),
        );
        let _ = self.register_builtin_type(
            enumerate,
            poly("Enumerate", vec![ty_tp(mono("T"))]),
            pv,
            cst,
            Some("enumerate"),
        );
        let _ = self.register_builtin_type(
            filter,
            poly("Filter", vec![ty_tp(mono("T"))]),
            pv,
            cst,
            Some("filter"),
        );
        let _ = self.register_builtin_type(
            map_cls,
            poly("Map", vec![ty_tp(mono("T"))]),
            pv,
            cst,
            Some("map"),
        );
        let _ = self.register_builtin_type(
            reversed,
            poly("Reversed", vec![ty_tp(mono("T"))]),
            pv,
            cst,
            Some("reversed"),
        );
        let _ = self.register_builtin_type(
            zip_cls,
            poly("Zip", vec![ty_tp(mono("T")), ty_tp(mono("U"))]),
            pv,
            cst,
            Some("zip"),
        );
    }

    /// Publishes the mutable, range and callable classes.
    #[verifier::spinoff_prover]
    #[verifier::rlimit(100)]
    fn publish_callable_classes(
        &mut self,
        muts: ((usize, usize, usize, usize, usize), (usize, usize, usize, usize, usize)),
        range_cls: usize,
        calls: (usize, usize, usize, usize, usize, usize, usize, usize),
    )
        ensures
            final(self).py_compatible == old(self).py_compatible,
            old(self).wf_basic() ==> final(self).wf_basic(),
            final(self).classes@.len() == old(self).classes@.len(),
            forall|k: int|
                0 <= k < final(self).classes@.len() ==> (#[trigger] final(self).classes@[k]).name@
                    == old(self).classes@[k].name@ && final(self).classes@[k].superclass == old(self).classes@[k].superclass && final(self).classes@[k].markers@ == old(self).classes@[k].markers@,
            forall|k: int|
                0 <= k < final(self).classes@.len() && old(self).classes@[k].published ==> (
                #[trigger] final(self).classes@[k]).published,
            forall|k: int|
                0 <= k < final(self).classes@.len() ==> (#[trigger] final(self).classes@[k]).methods@
                    == old(self).classes@[k].methods@ && final(self).classes@[k].consts@ == old(self).classes@[k].consts@,
            forall|k: int|
                0 <= k < old(self).namespace@.len() ==> (#[trigger] final(self).namespace@[k])
                    == old(self).namespace@[k],
            old(self).namespace@.len() <= final(self).namespace@.len(),
    {
        let cst = Mutability::Const;
        let pv = Visibility::Private;
        let pb = Visibility::Public;
        let vis = if self.py_compatible {
            pb
        } else {
            pv
        };
        let file_mut: usize = muts.0.0;
        let arr_mut: usize = muts.1.3;
        let set_mut: usize = muts.1.4;
        let g_callable: usize = calls.0;
        let g_generator: usize = calls.1;
        let proc_cls: usize = calls.2;
        let func_cls: usize = calls.4;
        let _ = self.register_builtin_type(file_mut, mono("File!"), vis, cst, Some("file"));
        let _ = self.register_builtin_type(
            arr_mut,
            poly("Array!", vec![ty_tp(mono("T")), var_tp("N")]),
            vis,
            cst,
            Some("list"),
        );
        let _ = self.register_builtin_type(
            set_mut,
            poly("Set!", vec![ty_tp(mono("T")), var_tp("N")]),
            vis,
            cst,
            Some("set"),
        );
        let _ = self.register_builtin_type(
            g_callable,
            mono("GenericCallable"),
            vis,
            cst,
            Some("Callable"),
        );
        let _ = self.register_builtin_type(
            g_generator,
            mono("GenericGenerator"),
            vis,
            cst,
            Some("Generator"),
        );
        let _ = self.register_builtin_type(proc_cls, mono("Proc"), vis, cst, Some("Proc"));
        let _ = self.register_builtin_type(func_cls, mono("Func"), vis, cst, Some("Func"));
        let _ = self.register_builtin_type(
            range_cls,
            range_t(mono("T")),
            vis,
            cst,
            Some("range"),
        );
    }

    /// Publishes the mode-gated module type and mutable numerics.
    #[verifier::spinoff_prover]
    #[verifier::rlimit(100)]
    fn publish_gated_classes(
        &mut self,
        mods: (usize, usize, usize),
        muts: ((usize, usize, usize, usize, usize), (usize, usize, usize, usize, usize)),
    )
        ensures
            final(self).py_compatible == old(self).py_compatible,
            old(self).wf_basic() ==> final(self).wf_basic(),
            final(self).classes@.len() == old(self).classes@.len(),
            forall|k: int|
                0 <= k < final(self).classes@.len() ==> (#[trigger] final(self).classes@[k]).name@
                    == old(self).classes@[k].name@ && final(self).classes@[k].superclass == old(self).classes@[k].superclass && final(self).classes@[k].markers@ == old(self).classes@[k].markers@,
            forall|k: int|
                0 <= k < final(self).classes@.len() && old(self).classes@[k].published ==> (
                #[trigger] final(self).classes@[k]).published,
            forall|k: int|
                0 <= k < final(self).classes@.len() ==> (#[trigger] final(self).classes@[k]).methods@
                    == old(self).classes@[k].methods@ && final(self).classes@[k].consts@ == old(self).classes@[k].consts@,
            forall|k: int|
                0 <= k < old(self).namespace@.len() ==> (#[trigger] final(self).namespace@[k])
                    == old(self).namespace@[k],
            old(self).namespace@.len() <= final(self).namespace@.len(),
    {
        let cst = Mutability::Const;
        let pv = Visibility::Private;
        let pb = Visibility::Public;
        let vis = if self.py_compatible {
            pb
        } else {
            pv
        };
        let module_cls: usize = mods.1;
        let obj_mut: usize = muts.0.1;
        let int_mut: usize = muts.0.2;
        let nat_mut: usize = muts.0.3;
        let float_mut: usize = muts.0.4;
        let ratio_mut: usize = muts.1.0;
        let bool_mut: usize = muts.1.1;
        let str_mut: usize = muts.1.2;
        if !self.py_compatible {
            let _ = self.register_builtin_type(
                module_cls,
                poly("Module", vec![var_tp("Path")]),
                vis,
                cst,
                Some("ModuleType"),
            );
            let _ = self.register_builtin_type(obj_mut, mono("Obj!"), vis, cst, Some("object"));
            let _ = self.register_builtin_type(int_mut, mono("Int!"), vis, cst, Some("int"));
            let _ = self.register_builtin_type(nat_mut, mono("Nat!"), vis, cst, Some("Nat"));
            let _ = self.register_builtin_type(
                float_mut,
                mono("Float!"),
                vis,
                cst,
                Some("float"),
            );
            let _ = self.register_builtin_type(
                ratio_mut,
                mono("Ratio!"),
                vis,
                cst,
                Some("Ratio"),
            );
            let _ = self.register_builtin_type(bool_mut, mono("Bool!"), vis, cst, Some("Bool"));
            let _ = self.register_builtin_type(str_mut, mono("Str!"), vis, cst, Some("Str"));
        }
    }

    /// Publishes the mode-gated named and quantified callables.
    #[verifier::spinoff_prover]
    #[verifier::rlimit(100)]
    fn publish_gated_callables(
        &mut self,
        calls: (usize, usize, usize, usize, usize, usize, usize, usize),
    )
        ensures
            final(self).py_compatible == old(self).py_compatible,
            old(self).wf_basic() ==> final(self).wf_basic(),
            final(self).classes@.len() == old(self).classes@.len(),
            forall|k: int|
                0 <= k < final(self).classes@.len() ==> (#[trigger] final(self).classes@[k]).name@
                    == old(self).classes@[k].name@ && final(self).classes@[k].superclass == old(self).classes@[k].superclass && final(self).classes@[k].markers@ == old(self).classes@[k].markers@,
            forall|k: int|
                0 <= k < final(self).classes@.len() && old(self).classes@[k].published ==> (
                #[trigger] final(self).classes@[k]).published,
            forall|k: int|
                0 <= k < final(self).classes@.len() ==> (#[trigger] final(self).classes@[k]).methods@
                    == old(self).classes@[k].methods@ && final(self).classes@[k].consts@ == old(self).classes@[k].consts@,
            forall|k: int|
                0 <= k < old(self).namespace@.len() ==> (#[trigger] final(self).namespace@[k])
                    == old(self).namespace@[k],
            old(self).namespace@.len() <= final(self).namespace@.len(),
    {
        let cst = Mutability::Const;
        let pv = Visibility::Private;
        let pb = Visibility::Public;
        let vis = if self.py_compatible {
            pb
        } else {
            pv
        };
        let named_proc: usize = calls.3;
        let named_func: usize = calls.5;
        let quant: usize = calls.6;
        let qfunc: usize = calls.7;
        if !self.py_compatible {
            let _ = self.register_builtin_type(
                named_proc,
                mono("NamedProc"),
                pv,
                cst,
                Some("NamedProc"),
            );
            let _ = self.register_builtin_type(
                named_func,
                mono("NamedFunc"),
                pv,
                cst,
                Some("NamedFunc"),
            );
            let _ = self.register_builtin_type(
                quant,
                mono("Quantified"),
                pv,
                cst,
                Some("Quantified"),
            );
            let _ = self.register_builtin_type(
                qfunc,
                mono("QuantifiedFunc"),
                pv,
                cst,
                Some("QuantifiedFunc"),
            );
        }
    }

    fn init_container_classes(&mut self, core: &CoreClasses)
        requires
            old(self).classes@.len() == 13,
            old(self).namespace@.len() == 0,
            core.never == 0 && core.obj == 1 && core.float == 2 && core.ratio == 3,
            core.int_cls == 4 && core.nat_cls == 5 && core.bool_cls == 6 && core.str_cls == 7,
            core.none_cls == 8 && core.type_cls == 9 && core.class_type == 10,
            core.trait_type == 11 && core.code == 12,
            old(self).classes@[0].name@ == ("Never")@,
            old(self).classes@[1].name@ == ("Obj")@,
            old(self).classes@[2].name@ == ("Float")@,
            old(self).classes@[3].name@ == ("Ratio")@,
            old(self).classes@[4].name@ == ("Int")@,
            old(self).classes@[5].name@ == ("Nat")@,
            old(self).classes@[6].name@ == ("Bool")@,
            old(self).classes@[7].name@ == ("Str")@,
            old(self).classes@[8].name@ == ("NoneType")@,
            old(self).classes@[9].name@ == ("Type")@,
            old(self).classes@[10].name@ == ("ClassType")@,
            old(self).classes@[11].name@ == ("TraitType")@,
            old(self).classes@[12].name@ == ("Code")@,
        ensures
            final(self).py_compatible == old(self).py_compatible,
            old(self).wf_basic() ==> final(self).wf_basic(),
            forall|k: int|
                0 <= k < 13 ==> (#[trigger] final(self).classes@[k]).name@ == old(
                    self,
                ).classes@[k].name@ && final(self).classes@[k].superclass == old(
                    self,
                ).classes@[k].superclass && final(self).classes@[k].markers@ == old(
                    self,
                ).classes@[k].markers@,
            forall|k: int| 0 <= k < 13 ==> (#[trigger] final(self).classes@[k]).published,
            builtin_namespace_built(final(self).namespace@, final(self).py_compatible),
            array_sigs_built(final(self).classes@),
            13 <= final(self).classes@.len(),
    {
        let cst = Mutability::Const;
        let im = Mutability::Immutable;
        let pb = Visibility::Public;
        let pv = Visibility::Private;
        let vis = if self.py_compatible {
            pb
        } else {
            pv
        };

        let mods: (usize, usize, usize) = self.init_module_classes(core.obj);
        let g_module: usize = mods.0;
        let module_cls: usize = mods.1;
        let py_module_cls: usize = mods.2;

        let arr: usize = self.init_array_class(core.obj);

        let colls: (usize, usize, usize, usize, usize, usize, usize, usize) =
            self.init_collection_classes(core.obj);
        let set_cls: usize = colls.0;
        let g_dict: usize = colls.1;
        let dict_cls: usize = colls.2;
        let bytes: usize = colls.3;
        let g_tuple: usize = colls.4;
        let tuple_cls: usize = colls.5;
        let record: usize = colls.6;
        let union_cls: usize = colls.7;

        let iters: (usize, usize, usize, usize, usize, usize, usize, usize) =
            self.init_iterator_classes(core.obj);
        let str_iter: usize = iters.0;
        let arr_iter: usize = iters.1;
        let range_iter: usize = iters.2;
        let enumerate: usize = iters.3;
        let filter: usize = iters.4;
        let map_cls: usize = iters.5;
        let reversed: usize = iters.6;
        let zip_cls: usize = iters.7;

        let muts: ((usize, usize, usize, usize, usize), (usize, usize, usize, usize, usize)) =
            self.init_mut_classes(core, arr, set_cls);
        let file_mut: usize = muts.0.0;
        let obj_mut: usize = muts.0.1;
        let int_mut: usize = muts.0.2;
        let nat_mut: usize = muts.0.3;
        let float_mut: usize = muts.0.4;
        let ratio_mut: usize = muts.1.0;
        let bool_mut: usize = muts.1.1;
        let str_mut: usize = muts.1.2;
        let arr_mut: usize = muts.1.3;
        let set_mut: usize = muts.1.4;

        let range_cls: usize = self.init_range_class(core.type_cls);

        let calls: (usize, usize, usize, usize, usize, usize, usize, usize) =
            self.init_callable_classes(core.obj);
        let g_callable: usize = calls.0;
        let g_generator: usize = calls.1;
        let proc_cls: usize = calls.2;
        let named_proc: usize = calls.3;
        let func_cls: usize = calls.4;
        let named_func: usize = calls.5;
        let quant: usize = calls.6;
        let qfunc: usize = calls.7;

        self.publish_core_classes(core);
        let ghost ns_mid = self.namespace@;
        self.publish_collection_classes(mods, arr, colls);
        self.publish_record_classes(colls);
        self.publish_iterator_classes(iters);
        self.publish_callable_classes(muts, range_cls, calls);
        self.publish_gated_classes(mods, muts);
        self.publish_gated_callables(calls);
        proof {
            lemma_ns_maps_all_extend(ns_mid, self.namespace@, self.py_compatible);
            let cs = self.classes@;
            let arr_mut: usize = muts.1.3;
            assert(array_sigs_built(cs)) by {
                assert(0 <= (arr as int) && (arr as int) < (arr_mut as int) && (arr_mut as int)
                    < cs.len());
                assert(cs[arr as int].name@ == ("Array")@);
                assert(cs[arr_mut as int].name@ == ("Array!")@);
                assert(cs[arr_mut as int].superclass == Some(arr));
                assert(has_method_sig(cs[arr as int].methods@, ("concat")@, concat_sig_view()));
                assert(has_method_sig(cs[arr as int].methods@, ("push")@, push_sig_view()));
                assert(has_method_sig(
                    cs[arr as int].methods@,
                    ("__getitem__")@,
                    getitem_sig_view(),
                ));
                assert(has_const_subr(
                    cs[arr as int].consts@,
                    ("__getitem__")@,
                    ("__array_getitem__")@,
                ));
            }
        }
    }
    /// Populates the registry with every builtin class and trait
    /// edge, in dependency order: superclass before subclass, trait
    /// before first use. Runs once at startup.
    pub fn init_builtin_classes(&mut self)
        requires
            old(self).classes@.len() == 0,
            old(self).namespace@.len() == 0,
        ensures
            final(self).py_compatible == old(self).py_compatible,
            final(self).wf_basic(),
            builtin_tower_built(final(self).classes@),
            array_sigs_built(final(self).classes@),
            builtin_namespace_built(final(self).namespace@, final(self).py_compatible),
    {
        let core = self.init_core_classes();
        self.init_container_classes(&core);
        proof {
            let cs = self.classes@;
            assert(cs[1].superclass is None);
            assert(crate::universe::chain_depth(cs, 1) == 0);
            assert(crate::universe::chain_depth(cs, 2) == 1);
            assert(crate::universe::chain_depth(cs, 4) == 2);
            assert(crate::universe::chain_depth(cs, 5) == 3);
            assert(crate::universe::chain_depth(cs, 6) == 4);
            assert(crate::universe::has_capability(cs, 2, TyView::Mono(("Num")@)));
            assert(crate::universe::has_capability(cs, 4, TyView::Mono(("Num")@)));
            assert(crate::universe::has_capability(cs, 5, TyView::Mono(("Num")@)));
            assert(crate::universe::has_capability(cs, 6, TyView::Mono(("Num")@)));
        }
    }
}

} // verus!
