//! The type universe: an arena of class/trait entries built once at
//! startup, in dependency order (superclass before subclass, trait
//! before first use), and read-only afterward. Superclass and
//! trait-impl relations hold indices into the arena, which keeps the
//! graph acyclic by construction: an edge always points at a
//! lower index, so every superclass chain strictly descends.

use vstd::prelude::*;

use crate::ty::Ty;
use crate::ty::TyView;
use crate::value::ValueObj;

verus! {

/// Per-member mutability tag, distinct from and layered over the
/// class hierarchy.
#[derive(Debug, Clone, Copy, PartialEq, Eq, Structural)]
pub enum Mutability {
    Const,
    Immutable,
    Mutable,
}

/// Member visibility; the default depends on the target-platform
/// compatibility flag.
#[derive(Debug, Clone, Copy, PartialEq, Eq, Structural)]
pub enum Visibility {
    Public,
    Private,
}

/// A declared type parameter of a polymorphic class: a type-level
/// parameter, or a value-level parameter with the type of its values.
#[derive(Debug)]
pub enum ParamSpec {
    /// A non-default type parameter, e.g. the element type `T`.
    TyNd(String),
    /// A non-default named value parameter, e.g. a length `N: Nat`.
    NamedNd(String, Ty),
}

impl ParamSpec {
    /// A non-default type parameter.
    pub fn t_nd(name: &str) -> (r: ParamSpec)
        ensures
            r matches ParamSpec::TyNd(n) && n@ == name@,
    {
        ParamSpec::TyNd(name.to_owned())
    }

    /// A non-default named value parameter of the given type.
    pub fn named_nd(name: &str, t: Ty) -> (r: ParamSpec)
        ensures
            r matches ParamSpec::NamedNd(n, u) && n@ == name@ && u == t,
    {
        ParamSpec::NamedNd(name.to_owned(), t)
    }
}

/// One method or constant member: its declared type, mutability tag,
/// visibility, and — for members bound to a name from the foreign
/// runtime boundary — that name and an optional declaration line,
/// carried through opaquely for the code generator.
#[derive(Debug)]
pub struct MethodEntry {
    pub name: String,
    pub sig: Ty,
    pub muta: Mutability,
    pub vis: Visibility,
    pub py_name: Option<String>,
    pub decl_line: Option<u64>,
}

/// A named constant member with its value.
#[derive(Debug)]
pub struct ConstEntry {
    pub name: String,
    pub vis: Visibility,
    pub value: ValueObj,
}

/// A method/const table under construction, optionally implementing a
/// trait (`impl_trait`); attached to a class it becomes that class's
/// table for one (class, trait-type) pair.
#[derive(Debug)]
pub struct MethodTable {
    pub impl_trait: Option<Ty>,
    pub methods: Vec<MethodEntry>,
    pub consts: Vec<ConstEntry>,
}

/// A trait implementation attached to a class: the self type it was
/// keyed by, and the table the class provides for that trait.
#[derive(Debug)]
pub struct TraitImplEntry {
    pub self_ty: Ty,
    pub table: MethodTable,
}

/// One node of the universe: a builtin class or trait.
#[derive(Debug)]
pub struct ClassEntry {
    /// Canonical name; aliases live in the namespace table only.
    pub name: String,
    /// The registered nominal/poly type, set at publication.
    pub typ: Ty,
    /// Declared type parameters, for polymorphic classes.
    pub params: Vec<ParamSpec>,
    /// The single superclass edge, as an arena index below this
    /// entry's own.
    pub superclass: Option<usize>,
    /// The class's own method table.
    pub methods: Vec<MethodEntry>,
    /// The class's own constant members.
    pub consts: Vec<ConstEntry>,
    /// Attached trait implementations.
    pub trait_impls: Vec<TraitImplEntry>,
    /// Marker traits: pure subtyping capabilities with no methods.
    pub markers: Vec<Ty>,
    /// Whether the entry has been published into the namespace.
    pub published: bool,
    pub vis: Visibility,
    pub muta: Mutability,
}

/// The process-wide type universe: built once, then a read-only query
/// surface.
#[derive(Debug)]
pub struct TypeUniverse {
    /// The arena of class/trait nodes.
    pub classes: Vec<ClassEntry>,
    /// The published namespace: canonical names and aliases, each
    /// naming an arena entry.
    pub namespace: Vec<(String, usize)>,
    /// Target-platform compatibility flag: affects visibility
    /// defaults and a small set of name aliases.
    pub py_compatible: bool,
}

/// First entry at or after `i` whose name is `n`.
pub open spec fn lookup_from(cs: Seq<ClassEntry>, n: Seq<char>, i: int) -> Option<int>
    decreases cs.len() - i,
{
    if i < 0 || i >= cs.len() {
        None
    } else if cs[i].name@ == n {
        Some(i)
    } else {
        lookup_from(cs, n, i + 1)
    }
}

/// First entry whose name is `n`.
pub open spec fn lookup_name(cs: Seq<ClassEntry>, n: Seq<char>) -> Option<int> {
    lookup_from(cs, n, 0)
}

/// Characterizes `lookup_from`: the result is the first match at or
/// after `i`, and `None` means no match from `i` on.
pub proof fn lemma_lookup_from(cs: Seq<ClassEntry>, n: Seq<char>, i: int)
    requires
        0 <= i <= cs.len(),
    ensures
        match lookup_from(cs, n, i) {
            Some(k) => {
                &&& i <= k < cs.len()
                &&& cs[k].name@ == n
                &&& forall|j: int| i <= j < k ==> (#[trigger] cs[j]).name@ != n
            },
            None => forall|j: int| i <= j < cs.len() ==> (#[trigger] cs[j]).name@ != n,
        },
    decreases cs.len() - i,
{
    if i < cs.len() && cs[i].name@ != n {
        lemma_lookup_from(cs, n, i + 1);
    }
}

/// Characterizes `lookup_name`.
pub proof fn lemma_lookup_name(cs: Seq<ClassEntry>, n: Seq<char>)
    ensures
        match lookup_name(cs, n) {
            Some(k) => {
                &&& 0 <= k < cs.len()
                &&& cs[k].name@ == n
                &&& forall|j: int| 0 <= j < k ==> (#[trigger] cs[j]).name@ != n
            },
            None => forall|j: int| 0 <= j < cs.len() ==> (#[trigger] cs[j]).name@ != n,
        },
{
    lemma_lookup_from(cs, n, 0);
}

/// Whether some marker in `ms` has view `v`.
pub open spec fn marker_has(ms: Seq<Ty>, v: TyView) -> bool {
    exists|k: int| 0 <= k < ms.len() && (#[trigger] ms[k]).deep() == v
}

/// Whether some attached trait implementation in `ts` implements a
/// trait with view `v`.
pub open spec fn impl_has(ts: Seq<TraitImplEntry>, v: TyView) -> bool {
    exists|k: int|
        0 <= k < ts.len() && (#[trigger] ts[k]).table.impl_trait is Some
            && ts[k].table.impl_trait->0.deep() == v
}


/// A marker stays carried when the marker list is only extended.
pub proof fn lemma_marker_has_extend(ms_old: Seq<Ty>, ms_new: Seq<Ty>, v: TyView)
    requires
        marker_has(ms_old, v),
        ms_old.len() <= ms_new.len(),
        forall|k: int| 0 <= k < ms_old.len() ==> ms_new[k] == ms_old[k],
    ensures
        marker_has(ms_new, v),
{
    let k = choose|k: int| 0 <= k < ms_old.len() && (#[trigger] ms_old[k]).deep() == v;
    assert(ms_new[k].deep() == v);
}

/// Whether entry `i` or one of its ancestors carries the capability
/// `v`: a marker trait or an implemented trait, inherited along the
/// superclass chain. The chain is guarded to strictly descend, so the
/// walk is finite on any registry.
pub open spec fn has_capability(cs: Seq<ClassEntry>, i: int, v: TyView) -> bool
    decreases i,
{
    if 0 <= i < cs.len() {
        marker_has(cs[i].markers@, v) || impl_has(cs[i].trait_impls@, v) || (
        match cs[i].superclass {
            Some(j) => 0 <= j < i && has_capability(cs, j as int, v),
            None => false,
        })
    } else {
        false
    }
}

/// Whether some strict ancestor of entry `i` is named `n`.
pub open spec fn has_ancestor_name(cs: Seq<ClassEntry>, i: int, n: Seq<char>) -> bool
    decreases i,
{
    if 0 <= i < cs.len() {
        match cs[i].superclass {
            Some(j) => 0 <= j < i && (cs[j as int].name@ == n || has_ancestor_name(
                cs,
                j as int,
                n,
            )),
            None => false,
        }
    } else {
        false
    }
}

/// The number of superclass steps from entry `i` to the root of its
/// chain.
pub open spec fn chain_depth(cs: Seq<ClassEntry>, i: int) -> nat
    decreases i,
{
    if 0 <= i < cs.len() {
        match cs[i].superclass {
            Some(j) => if 0 <= j < i {
                (1 + chain_depth(cs, j as int)) as nat
            } else {
                0
            },
            None => 0,
        }
    } else {
        0
    }
}

impl TypeUniverse {
    /// The arena discipline: every superclass edge points strictly
    /// downward, and every namespace entry names a real node.
    pub open spec fn wf_basic(self) -> bool {
        &&& forall|i: int|
            0 <= i < self.classes@.len() ==> ((#[trigger] self.classes@[i]).superclass matches Some(
                j,
            ) ==> j < i)
        &&& forall|k: int|
            0 <= k < self.namespace@.len() ==> (#[trigger] self.namespace@[k]).1
                < self.classes@.len()
    }

    /// Full well-formedness: the arena discipline plus canonical name
    /// uniqueness.
    pub open spec fn wf(self) -> bool {
        &&& self.wf_basic()
        &&& forall|i: int, j: int|
            0 <= i < j < self.classes@.len() ==> (#[trigger] self.classes@[i]).name@ != (
            #[trigger] self.classes@[j]).name@
    }

    /// An empty universe for the given compatibility mode.
    pub fn new(py_compatible: bool) -> (r: TypeUniverse)
        ensures
            r.classes@.len() == 0,
            r.namespace@.len() == 0,
            r.py_compatible == py_compatible,
            r.wf(),
    {
        TypeUniverse { classes: Vec::new(), namespace: Vec::new(), py_compatible }
    }

    /// Finds the arena entry with the given canonical name.
    pub fn lookup_class(&self, name: &str) -> (r: Option<usize>)
        ensures
            match r {
                Some(i) => lookup_name(self.classes@, name@) == Some(i as int),
                None => lookup_name(self.classes@, name@) is None,
            },
    {
        let name_owned = name.to_owned();
        let mut i: usize = 0;
        while i < self.classes.len()
            invariant
                i <= self.classes@.len(),
                name_owned@ == name@,
                forall|j: int| 0 <= j < i ==> (#[trigger] self.classes@[j]).name@ != name@,
            decreases self.classes@.len() - i,
        {
            if self.classes[i].name.eq(&name_owned) {
                proof {
                    lemma_lookup_name(self.classes@, name@);
                }
                return Some(i);
            }
            i = i + 1;
        }
        proof {
            lemma_lookup_name(self.classes@, name@);
        }
        None
    }

    /// The number of superclass steps from entry `i` to its root;
    /// zero for an out-of-range index.
    pub fn chain_depth_of(&self, i: usize) -> (r: u64)
        ensures
            r as nat == chain_depth(self.classes@, i as int),
        decreases i,
    {
        if i >= self.classes.len() {
            return 0;
        }
        match self.classes[i].superclass {
            Some(j) => {
                if j < i {
                    let d = self.chain_depth_of(j);
                    proof {
                        lemma_chain_depth_bound(self.classes@, j as int);
                    }
                    d + 1
                } else {
                    0
                }
            },
            None => 0,
        }
    }

    /// Whether entry `i` (or an ancestor) carries capability `target`.
    pub fn has_capability_of(&self, i: usize, target: &Ty) -> (r: bool)
        ensures
            r == has_capability(self.classes@, i as int, target.deep()),
        decreases i,
    {
        if i >= self.classes.len() {
            return false;
        }
        let entry = &self.classes[i];
        let mut k: usize = 0;
        while k < entry.markers.len()
            invariant
                i < self.classes@.len(),
                *entry == self.classes@[i as int],
                k <= entry.markers@.len(),
                forall|j: int| 0 <= j < k ==> (#[trigger] entry.markers@[j]).deep()
                    != target.deep(),
            decreases entry.markers@.len() - k,
        {
            if crate::ty::ty_eq(&entry.markers[k], target) {
                proof {
                    assert(entry.markers@[k as int].deep() == target.deep());
                    assert(marker_has(self.classes@[i as int].markers@, target.deep()));
                }
                return true;
            }
            k = k + 1;
        }
        let mut k: usize = 0;
        while k < entry.trait_impls.len()
            invariant
                i < self.classes@.len(),
                *entry == self.classes@[i as int],
                k <= entry.trait_impls@.len(),
                forall|j: int|
                    0 <= j < k ==> ((#[trigger] entry.trait_impls@[j]).table.impl_trait is Some
                        ==> entry.trait_impls@[j].table.impl_trait->0.deep() != target.deep()),
            decreases entry.trait_impls@.len() - k,
        {
            match &entry.trait_impls[k].table.impl_trait {
                Some(t) => {
                    if crate::ty::ty_eq(t, target) {
                        proof {
                            assert(entry.trait_impls@[k as int].table.impl_trait is Some
                                && entry.trait_impls@[k as int].table.impl_trait->0.deep()
                                == target.deep());
                            assert(impl_has(self.classes@[i as int].trait_impls@, target.deep()));
                        }
                        return true;
                    }
                },
                None => {},
            }
            k = k + 1;
        }
        match entry.superclass {
            Some(j) => {
                if j < i {
                    self.has_capability_of(j, target)
                } else {
                    false
                }
            },
            None => false,
        }
    }

    /// Whether some strict ancestor of entry `i` is named `name`.
    pub fn has_ancestor_named(&self, i: usize, name: &String) -> (r: bool)
        ensures
            r == has_ancestor_name(self.classes@, i as int, name@),
        decreases i,
    {
        if i >= self.classes.len() {
            return false;
        }
        match self.classes[i].superclass {
            Some(j) => {
                if j < i {
                    if self.classes[j].name.eq(name) {
                        true
                    } else {
                        self.has_ancestor_named(j, name)
                    }
                } else {
                    false
                }
            },
            None => false,
        }
    }
}

/// Two arenas agree everywhere except possibly at `i`.
pub open spec fn same_except(a: Seq<ClassEntry>, b: Seq<ClassEntry>, i: int) -> bool {
    a.len() == b.len() && forall|k: int| 0 <= k < a.len() && k != i ==> a[k] == b[k]
}

/// All fields of `b` equal those of `a` except the markers.
pub open spec fn entry_same_but_markers(a: ClassEntry, b: ClassEntry) -> bool {
    &&& b.name == a.name
    &&& b.typ == a.typ
    &&& b.params == a.params
    &&& b.superclass == a.superclass
    &&& b.methods == a.methods
    &&& b.consts == a.consts
    &&& b.trait_impls == a.trait_impls
    &&& b.published == a.published
    &&& b.vis == a.vis
    &&& b.muta == a.muta
}

/// All fields of `b` equal those of `a` except the superclass edge.
pub open spec fn entry_same_but_superclass(a: ClassEntry, b: ClassEntry) -> bool {
    &&& b.name == a.name
    &&& b.typ == a.typ
    &&& b.params == a.params
    &&& b.methods == a.methods
    &&& b.consts == a.consts
    &&& b.trait_impls == a.trait_impls
    &&& b.markers == a.markers
    &&& b.published == a.published
    &&& b.vis == a.vis
    &&& b.muta == a.muta
}

/// All fields of `b` equal those of `a` except the own method table.
pub open spec fn entry_same_but_methods(a: ClassEntry, b: ClassEntry) -> bool {
    &&& b.name == a.name
    &&& b.typ == a.typ
    &&& b.params == a.params
    &&& b.superclass == a.superclass
    &&& b.consts == a.consts
    &&& b.trait_impls == a.trait_impls
    &&& b.markers == a.markers
    &&& b.published == a.published
    &&& b.vis == a.vis
    &&& b.muta == a.muta
}

/// All fields of `b` equal those of `a` except the constant members.
pub open spec fn entry_same_but_consts(a: ClassEntry, b: ClassEntry) -> bool {
    &&& b.name == a.name
    &&& b.typ == a.typ
    &&& b.params == a.params
    &&& b.superclass == a.superclass
    &&& b.methods == a.methods
    &&& b.trait_impls == a.trait_impls
    &&& b.markers == a.markers
    &&& b.published == a.published
    &&& b.vis == a.vis
    &&& b.muta == a.muta
}

/// All fields of `b` equal those of `a` except the trait impls.
pub open spec fn entry_same_but_trait_impls(a: ClassEntry, b: ClassEntry) -> bool {
    &&& b.name == a.name
    &&& b.typ == a.typ
    &&& b.params == a.params
    &&& b.superclass == a.superclass
    &&& b.methods == a.methods
    &&& b.consts == a.consts
    &&& b.markers == a.markers
    &&& b.published == a.published
    &&& b.vis == a.vis
    &&& b.muta == a.muta
}

/// All fields of `b` equal those of `a` except the publication data:
/// registered type, published flag, visibility, mutability.
pub open spec fn entry_same_but_publication(a: ClassEntry, b: ClassEntry) -> bool {
    &&& b.name == a.name
    &&& b.params == a.params
    &&& b.superclass == a.superclass
    &&& b.methods == a.methods
    &&& b.consts == a.consts
    &&& b.trait_impls == a.trait_impls
    &&& b.markers == a.markers
}

impl MethodTable {
    /// A fresh method/const table, optionally for a trait; the size
    /// hint of the original interface is advisory only.
    pub fn builtin_methods(impl_trait: Option<Ty>, _method_capacity_hint: usize) -> (r:
        MethodTable)
        ensures
            r.impl_trait == impl_trait,
            r.methods@.len() == 0,
            r.consts@.len() == 0,
    {
        MethodTable { impl_trait, methods: Vec::new(), consts: Vec::new() }
    }

    /// Adds one member entry declared by this language itself.
    pub fn register_builtin_erg_impl(&mut self, name: &str, sig: Ty, muta: Mutability, vis:
        Visibility)
        ensures
            final(self).impl_trait == old(self).impl_trait,
            final(self).consts@ == old(self).consts@,
            final(self).methods@.len() == old(self).methods@.len() + 1,
            forall|k: int|
                0 <= k < old(self).methods@.len() ==> final(self).methods@[k] == old(self).methods@[k],
            final(self).methods@.last().name@ == name@,
            final(self).methods@.last().sig == sig,
            final(self).methods@.last().muta == muta,
            final(self).methods@.last().vis == vis,
            final(self).methods@.last().py_name is None,
            final(self).methods@.last().decl_line is None,
    {
        self.methods.push(
            MethodEntry {
                name: name.to_owned(),
                sig,
                muta,
                vis,
                py_name: None,
                decl_line: None,
            },
        );
    }

    /// Adds one member entry bound to a foreign-runtime name.
    pub fn register_builtin_py_impl(
        &mut self,
        name: &str,
        sig: Ty,
        muta: Mutability,
        vis: Visibility,
        py_name: Option<&str>,
    )
        ensures
            final(self).impl_trait == old(self).impl_trait,
            final(self).consts@ == old(self).consts@,
            final(self).methods@.len() == old(self).methods@.len() + 1,
            forall|k: int|
                0 <= k < old(self).methods@.len() ==> final(self).methods@[k] == old(self).methods@[k],
            final(self).methods@.last().name@ == name@,
            final(self).methods@.last().sig == sig,
            final(self).methods@.last().muta == muta,
            final(self).methods@.last().vis == vis,
            match py_name {
                Some(p) => final(self).methods@.last().py_name matches Some(q) && q@ == p@,
                None => final(self).methods@.last().py_name is None,
            },
            final(self).methods@.last().decl_line is None,
    {
        let py = match py_name {
            Some(p) => Some(p.to_owned()),
            None => None,
        };
        self.methods.push(
            MethodEntry { name: name.to_owned(), sig, muta, vis, py_name: py, decl_line: None },
        );
    }

    /// Adds one constant member with its value.
    pub fn register_builtin_const(&mut self, name: &str, vis: Visibility, value: ValueObj)
        ensures
            final(self).impl_trait == old(self).impl_trait,
            final(self).methods@ == old(self).methods@,
            final(self).consts@.len() == old(self).consts@.len() + 1,
            forall|k: int|
                0 <= k < old(self).consts@.len() ==> final(self).consts@[k] == old(self).consts@[k],
            final(self).consts@.last().name@ == name@,
            final(self).consts@.last().vis == vis,
            final(self).consts@.last().value == value,
    {
        self.consts.push(ConstEntry { name: name.to_owned(), vis, value });
    }
}

/// A chain strictly descends, so its depth is at most its start index.
pub proof fn lemma_chain_depth_bound(cs: Seq<ClassEntry>, i: int)
    ensures
        chain_depth(cs, i) <= i || chain_depth(cs, i) == 0,
    decreases i,
{
    if 0 <= i < cs.len() {
        match cs[i].superclass {
            Some(j) => {
                if 0 <= j < i {
                    lemma_chain_depth_bound(cs, j as int);
                }
            },
            None => {},
        }
    }
}

impl TypeUniverse {
    /// Creates a nominal class node with no superclass yet; the
    /// method-count hint of the original interface is advisory only.
    /// Returns the new node's arena index.
    pub fn builtin_mono_class(&mut self, name: &str, _method_capacity_hint: usize) -> (idx: usize)
        ensures
            idx == old(self).classes@.len(),
            final(self).classes@.len() == old(self).classes@.len() + 1,
            forall|k: int|
                0 <= k < old(self).classes@.len() ==> (#[trigger] final(self).classes@[k]).name@
                    == old(self).classes@[k].name@ && final(self).classes@[k].superclass == old(self).classes@[k].superclass,
            forall|k: int|
                0 <= k < old(self).classes@.len() ==> final(self).classes@[k] == old(self).classes@[k],
            final(self).classes@.last().name@ == name@,
            final(self).classes@.last().typ.deep() == TyView::Mono(name@),
            final(self).classes@.last().superclass is None,
            final(self).classes@.last().params@.len() == 0,
            final(self).classes@.last().methods@.len() == 0,
            final(self).classes@.last().consts@.len() == 0,
            final(self).classes@.last().trait_impls@.len() == 0,
            final(self).classes@.last().markers@.len() == 0,
            !final(self).classes@.last().published,
            final(self).namespace@ == old(self).namespace@,
            final(self).py_compatible == old(self).py_compatible,
            old(self).wf_basic() ==> final(self).wf_basic(),
    {
        let idx = self.classes.len();
        self.classes.push(
            ClassEntry {
                name: name.to_owned(),
                typ: crate::ty::mono(name),
                params: Vec::new(),
                superclass: None,
                methods: Vec::new(),
                consts: Vec::new(),
                trait_impls: Vec::new(),
                markers: Vec::new(),
                published: false,
                vis: Visibility::Private,
                muta: Mutability::Const,
            },
        );
        idx
    }

    /// Creates a polymorphic class node declaring its parameters.
    pub fn builtin_poly_class(
        &mut self,
        name: &str,
        params: Vec<ParamSpec>,
        _method_capacity_hint: usize,
    ) -> (idx: usize)
        ensures
            idx == old(self).classes@.len(),
            final(self).classes@.len() == old(self).classes@.len() + 1,
            forall|k: int|
                0 <= k < old(self).classes@.len() ==> (#[trigger] final(self).classes@[k]).name@
                    == old(self).classes@[k].name@ && final(self).classes@[k].superclass == old(self).classes@[k].superclass,
            forall|k: int|
                0 <= k < old(self).classes@.len() ==> final(self).classes@[k] == old(self).classes@[k],
            final(self).classes@.last().name@ == name@,
            final(self).classes@.last().typ.deep() == TyView::Mono(name@),
            final(self).classes@.last().superclass is None,
            final(self).classes@.last().params@ == params@,
            final(self).classes@.last().methods@.len() == 0,
            final(self).classes@.last().consts@.len() == 0,
            final(self).classes@.last().trait_impls@.len() == 0,
            final(self).classes@.last().markers@.len() == 0,
            !final(self).classes@.last().published,
            final(self).namespace@ == old(self).namespace@,
            final(self).py_compatible == old(self).py_compatible,
            old(self).wf_basic() ==> final(self).wf_basic(),
    {
        let idx = self.classes.len();
        self.classes.push(
            ClassEntry {
                name: name.to_owned(),
                typ: crate::ty::mono(name),
                params,
                superclass: None,
                methods: Vec::new(),
                consts: Vec::new(),
                trait_impls: Vec::new(),
                markers: Vec::new(),
                published: false,
                vis: Visibility::Private,
                muta: Mutability::Const,
            },
        );
        idx
    }

    /// Sets the single superclass edge of `child` to `parent`.
    /// Registration must respect dependency order — the parent stands
    /// below the child in the arena, which is what makes a cycle
    /// impossible — and a child may not already have a superclass;
    /// a malformed registration is reported by `false` and changes
    /// nothing. The builder treats `false` as a fatal build defect.
    pub fn register_superclass(&mut self, child: usize, parent: usize) -> (ok: bool)
        ensures
            final(self).namespace@ == old(self).namespace@,
            final(self).py_compatible == old(self).py_compatible,
            final(self).classes@.len() == old(self).classes@.len(),
            forall|k: int|
                0 <= k < final(self).classes@.len() ==> (#[trigger] final(self).classes@[k]).name@
                    == old(self).classes@[k].name@,
            forall|k: int|
                0 <= k < final(self).classes@.len() && k != child ==> (#[trigger] final(self).classes@[k]).superclass == old(self).classes@[k].superclass,
            forall|k: int|
                0 <= k < final(self).classes@.len() ==> (#[trigger] final(self).classes@[k]).markers@ == old(self).classes@[k].markers@,
            forall|k: int|
                0 <= k < final(self).classes@.len() ==> (#[trigger] final(self).classes@[k]).methods@ == old(self).classes@[k].methods@ && final(self).classes@[k].consts@ == old(self).classes@[k].consts@,
            ok == (child < old(self).classes@.len() && parent < child && old(self).classes@[
                child as int].superclass is None),
            forall|k: int|
                0 <= k < final(self).classes@.len() && k != child ==> (#[trigger] final(self).classes@[k]) == old(self).classes@[k],
            ok ==> {
                &&& same_except(old(self).classes@, final(self).classes@, child as int)
                &&& entry_same_but_superclass(
                    old(self).classes@[child as int],
                    final(self).classes@[child as int],
                )
                &&& final(self).classes@[child as int].superclass == Some(parent)
            },
            !ok ==> final(self).classes@ == old(self).classes@,
            old(self).wf_basic() ==> final(self).wf_basic(),
    {
        if !(child < self.classes.len() && parent < child) {
            return false;
        }
        if !matches!(self.classes[child].superclass, None) {
            return false;
        }
        let mut e = self.classes.remove(child);
        e.superclass = Some(parent);
        self.classes.insert(child, e);
        proof {
            assert(final(self).classes@ =~= old(self).classes@.update(
                child as int,
                final(self).classes@[child as int],
            ));
        }
        true
    }

    /// Attaches a marker trait: a pure subtyping capability with no
    /// callable contract. `false` reports an out-of-range node.
    pub fn register_marker_trait(&mut self, class: usize, t: Ty) -> (ok: bool)
        ensures
            final(self).namespace@ == old(self).namespace@,
            final(self).py_compatible == old(self).py_compatible,
            final(self).classes@.len() == old(self).classes@.len(),
            forall|k: int|
                0 <= k < final(self).classes@.len() ==> (#[trigger] final(self).classes@[k]).name@
                    == old(self).classes@[k].name@ && final(self).classes@[k].superclass == old(self).classes@[k].superclass,
            forall|k: int|
                0 <= k < final(self).classes@.len() && k != class ==> (#[trigger] final(self).classes@[k]).markers@ == old(self).classes@[k].markers@,
            forall|k: int|
                0 <= k < final(self).classes@.len() ==> (#[trigger] final(self).classes@[k]).methods@ == old(self).classes@[k].methods@ && final(self).classes@[k].consts@ == old(self).classes@[k].consts@,
            forall|k: int|
                0 <= k < final(self).classes@.len() && k != class ==> (#[trigger] final(self).classes@[k]).methods@ == old(self).classes@[k].methods@,
            forall|k: int|
                0 <= k < final(self).classes@.len() ==> (#[trigger] final(self).classes@[k]).consts@ == old(self).classes@[k].consts@,
            forall|k: int|
                0 <= k < final(self).classes@.len() && k != class ==> (#[trigger] final(self).classes@[k]).methods@ == old(self).classes@[k].methods@,
            forall|k: int|
                0 <= k < final(self).classes@.len() ==> (#[trigger] final(self).classes@[k]).consts@ == old(self).classes@[k].consts@,
            forall|k: int|
                0 <= k < final(self).classes@.len() ==> (#[trigger] final(self).classes@[k]).methods@ == old(self).classes@[k].methods@,
            forall|k: int|
                0 <= k < final(self).classes@.len() && k != class ==> (#[trigger] final(self).classes@[k]).consts@ == old(self).classes@[k].consts@,
            ok == (class < old(self).classes@.len()),
            forall|k: int|
                0 <= k < final(self).classes@.len() && k != class ==> (#[trigger] final(self).classes@[k]) == old(self).classes@[k],
            ok ==> {
                &&& same_except(old(self).classes@, final(self).classes@, class as int)
                &&& entry_same_but_markers(
                    old(self).classes@[class as int],
                    final(self).classes@[class as int],
                )
                &&& final(self).classes@[class as int].markers@ == old(self).classes@[
                    class as int].markers@.push(t)
            },
            !ok ==> final(self).classes@ == old(self).classes@,
            old(self).wf_basic() ==> final(self).wf_basic(),
    {
        if class >= self.classes.len() {
            return false;
        }
        let mut e = self.classes.remove(class);
        e.markers.push(t);
        self.classes.insert(class, e);
        proof {
            assert(final(self).classes@ =~= old(self).classes@.update(
                class as int,
                final(self).classes@[class as int],
            ));
        }
        true
    }

    /// Attaches a trait implementation, keyed by the trait type the
    /// table names, with the self type it is provided at. `false`
    /// reports an out-of-range node.
    pub fn register_trait(&mut self, class: usize, self_ty: Ty, table: MethodTable) -> (ok: bool)
        ensures
            final(self).namespace@ == old(self).namespace@,
            final(self).py_compatible == old(self).py_compatible,
            final(self).classes@.len() == old(self).classes@.len(),
            forall|k: int|
                0 <= k < final(self).classes@.len() ==> (#[trigger] final(self).classes@[k]).name@
                    == old(self).classes@[k].name@ && final(self).classes@[k].superclass == old(self).classes@[k].superclass,
            forall|k: int|
                0 <= k < final(self).classes@.len() ==> (#[trigger] final(self).classes@[k]).markers@ == old(self).classes@[k].markers@,
            forall|k: int|
                0 <= k < final(self).classes@.len() ==> (#[trigger] final(self).classes@[k]).methods@ == old(self).classes@[k].methods@ && final(self).classes@[k].consts@ == old(self).classes@[k].consts@,
            ok == (class < old(self).classes@.len()),
            forall|k: int|
                0 <= k < final(self).classes@.len() && k != class ==> (#[trigger] final(self).classes@[k]) == old(self).classes@[k],
            ok ==> {
                &&& same_except(old(self).classes@, final(self).classes@, class as int)
                &&& entry_same_but_trait_impls(
                    old(self).classes@[class as int],
                    final(self).classes@[class as int],
                )
                &&& final(self).classes@[class as int].trait_impls@ == old(self).classes@[
                    class as int].trait_impls@.push(TraitImplEntry { self_ty, table })
            },
            !ok ==> final(self).classes@ == old(self).classes@,
            old(self).wf_basic() ==> final(self).wf_basic(),
    {
        if class >= self.classes.len() {
            return false;
        }
        let mut e = self.classes.remove(class);
        e.trait_impls.push(TraitImplEntry { self_ty, table });
        self.classes.insert(class, e);
        proof {
            assert(final(self).classes@ =~= old(self).classes@.update(
                class as int,
                final(self).classes@[class as int],
            ));
        }
        true
    }

    /// Adds one member entry declared by this language itself to the
    /// class's own table.
    pub fn register_builtin_erg_impl(
        &mut self,
        class: usize,
        name: &str,
        sig: Ty,
        muta: Mutability,
        vis: Visibility,
    ) -> (ok: bool)
        ensures
            final(self).namespace@ == old(self).namespace@,
            final(self).py_compatible == old(self).py_compatible,
            final(self).classes@.len() == old(self).classes@.len(),
            forall|k: int|
                0 <= k < final(self).classes@.len() ==> (#[trigger] final(self).classes@[k]).name@
                    == old(self).classes@[k].name@ && final(self).classes@[k].superclass == old(self).classes@[k].superclass,
            forall|k: int|
                0 <= k < final(self).classes@.len() ==> (#[trigger] final(self).classes@[k]).markers@ == old(self).classes@[k].markers@,
            ok == (class < old(self).classes@.len()),
            forall|k: int|
                0 <= k < final(self).classes@.len() && k != class ==> (#[trigger] final(self).classes@[k]) == old(self).classes@[k],
            ok ==> {
                &&& same_except(old(self).classes@, final(self).classes@, class as int)
                &&& entry_same_but_methods(
                    old(self).classes@[class as int],
                    final(self).classes@[class as int],
                )
                &&& final(self).classes@[class as int].methods@.len() == old(self).classes@[
                    class as int].methods@.len() + 1
                &&& (forall|k: int|
                    0 <= k < old(self).classes@[class as int].methods@.len() ==> final(self).classes@[class as int].methods@[k] == old(self).classes@[
                        class as int].methods@[k])
                &&& final(self).classes@[class as int].methods@.last().name@ == name@
                &&& final(self).classes@[class as int].methods@.last().sig == sig
                &&& final(self).classes@[class as int].methods@.last().muta == muta
                &&& final(self).classes@[class as int].methods@.last().vis == vis
                &&& final(self).classes@[class as int].methods@.last().py_name is None
            },
            !ok ==> final(self).classes@ == old(self).classes@,
            old(self).wf_basic() ==> final(self).wf_basic(),
    {
        if class >= self.classes.len() {
            return false;
        }
        let mut e = self.classes.remove(class);
        e.methods.push(
            MethodEntry {
                name: name.to_owned(),
                sig,
                muta,
                vis,
                py_name: None,
                decl_line: None,
            },
        );
        self.classes.insert(class, e);
        proof {
            assert(final(self).classes@ =~= old(self).classes@.update(
                class as int,
                final(self).classes@[class as int],
            ));
        }
        true
    }

    /// Adds one member entry bound to a foreign-runtime name to the
    /// class's own table.
    pub fn register_builtin_py_impl(
        &mut self,
        class: usize,
        name: &str,
        sig: Ty,
        muta: Mutability,
        vis: Visibility,
        py_name: Option<&str>,
    ) -> (ok: bool)
        ensures
            final(self).namespace@ == old(self).namespace@,
            final(self).py_compatible == old(self).py_compatible,
            final(self).classes@.len() == old(self).classes@.len(),
            forall|k: int|
                0 <= k < final(self).classes@.len() ==> (#[trigger] final(self).classes@[k]).name@
                    == old(self).classes@[k].name@ && final(self).classes@[k].superclass == old(self).classes@[k].superclass,
            forall|k: int|
                0 <= k < final(self).classes@.len() ==> (#[trigger] final(self).classes@[k]).markers@ == old(self).classes@[k].markers@,
            ok == (class < old(self).classes@.len()),
            forall|k: int|
                0 <= k < final(self).classes@.len() && k != class ==> (#[trigger] final(self).classes@[k]) == old(self).classes@[k],
            ok ==> {
                &&& same_except(old(self).classes@, final(self).classes@, class as int)
                &&& entry_same_but_methods(
                    old(self).classes@[class as int],
                    final(self).classes@[class as int],
                )
                &&& final(self).classes@[class as int].methods@.len() == old(self).classes@[
                    class as int].methods@.len() + 1
                &&& (forall|k: int|
                    0 <= k < old(self).classes@[class as int].methods@.len() ==> final(self).classes@[class as int].methods@[k] == old(self).classes@[
                        class as int].methods@[k])
                &&& final(self).classes@[class as int].methods@.last().name@ == name@
                &&& final(self).classes@[class as int].methods@.last().sig == sig
                &&& final(self).classes@[class as int].methods@.last().muta == muta
                &&& final(self).classes@[class as int].methods@.last().vis == vis
                &&& (match py_name {
                    Some(p) => final(self).classes@[class as int].methods@.last().py_name matches
                        Some(q) && q@ == p@,
                    None => final(self).classes@[class as int].methods@.last().py_name is None,
                })
            },
            !ok ==> final(self).classes@ == old(self).classes@,
            old(self).wf_basic() ==> final(self).wf_basic(),
    {
        if class >= self.classes.len() {
            return false;
        }
        let py = match py_name {
            Some(p) => Some(p.to_owned()),
            None => None,
        };
        let mut e = self.classes.remove(class);
        e.methods.push(
            MethodEntry { name: name.to_owned(), sig, muta, vis, py_name: py, decl_line: None },
        );
        self.classes.insert(class, e);
        proof {
            assert(final(self).classes@ =~= old(self).classes@.update(
                class as int,
                final(self).classes@[class as int],
            ));
        }
        true
    }

    /// Adds one member entry from the foreign runtime's own builtin
    /// declarations, with its declaration line, to the class's own
    /// table; both are carried through opaquely.
    pub fn register_py_builtin(
        &mut self,
        class: usize,
        name: &str,
        sig: Ty,
        py_name: Option<&str>,
        decl_line: u64,
    ) -> (ok: bool)
        ensures
            final(self).namespace@ == old(self).namespace@,
            final(self).py_compatible == old(self).py_compatible,
            final(self).classes@.len() == old(self).classes@.len(),
            forall|k: int|
                0 <= k < final(self).classes@.len() ==> (#[trigger] final(self).classes@[k]).name@
                    == old(self).classes@[k].name@ && final(self).classes@[k].superclass == old(self).classes@[k].superclass,
            forall|k: int|
                0 <= k < final(self).classes@.len() ==> (#[trigger] final(self).classes@[k]).markers@ == old(self).classes@[k].markers@,
            forall|k: int|
                0 <= k < final(self).classes@.len() && k != class ==> (#[trigger] final(self).classes@[k]).methods@ == old(self).classes@[k].methods@,
            forall|k: int|
                0 <= k < final(self).classes@.len() ==> (#[trigger] final(self).classes@[k]).consts@ == old(self).classes@[k].consts@,
            ok == (class < old(self).classes@.len()),
            forall|k: int|
                0 <= k < final(self).classes@.len() && k != class ==> (#[trigger] final(self).classes@[k]) == old(self).classes@[k],
            ok ==> {
                &&& same_except(old(self).classes@, final(self).classes@, class as int)
                &&& entry_same_but_methods(
                    old(self).classes@[class as int],
                    final(self).classes@[class as int],
                )
                &&& final(self).classes@[class as int].methods@.len() == old(self).classes@[
                    class as int].methods@.len() + 1
                &&& (forall|k: int|
                    0 <= k < old(self).classes@[class as int].methods@.len() ==> final(self).classes@[class as int].methods@[k] == old(self).classes@[
                        class as int].methods@[k])
                &&& final(self).classes@[class as int].methods@.last().name@ == name@
                &&& final(self).classes@[class as int].methods@.last().sig == sig
                &&& final(self).classes@[class as int].methods@.last().decl_line == Some(decl_line)
            },
            !ok ==> final(self).classes@ == old(self).classes@,
            old(self).wf_basic() ==> final(self).wf_basic(),
    {
        if class >= self.classes.len() {
            return false;
        }
        let py = match py_name {
            Some(p) => Some(p.to_owned()),
            None => None,
        };
        let mut e = self.classes.remove(class);
        e.methods.push(
            MethodEntry {
                name: name.to_owned(),
                sig,
                muta: Mutability::Immutable,
                vis: Visibility::Public,
                py_name: py,
                decl_line: Some(decl_line),
            },
        );
        self.classes.insert(class, e);
        proof {
            assert(final(self).classes@ =~= old(self).classes@.update(
                class as int,
                final(self).classes@[class as int],
            ));
        }
        true
    }

    /// Adds one constant member with its value to the class's own
    /// constants.
    pub fn register_builtin_const(
        &mut self,
        class: usize,
        name: &str,
        vis: Visibility,
        value: ValueObj,
    ) -> (ok: bool)
        ensures
            final(self).namespace@ == old(self).namespace@,
            final(self).py_compatible == old(self).py_compatible,
            final(self).classes@.len() == old(self).classes@.len(),
            forall|k: int|
                0 <= k < final(self).classes@.len() ==> (#[trigger] final(self).classes@[k]).name@
                    == old(self).classes@[k].name@ && final(self).classes@[k].superclass == old(self).classes@[k].superclass,
            forall|k: int|
                0 <= k < final(self).classes@.len() ==> (#[trigger] final(self).classes@[k]).markers@ == old(self).classes@[k].markers@,
            ok == (class < old(self).classes@.len()),
            forall|k: int|
                0 <= k < final(self).classes@.len() && k != class ==> (#[trigger] final(self).classes@[k]) == old(self).classes@[k],
            ok ==> {
                &&& same_except(old(self).classes@, final(self).classes@, class as int)
                &&& entry_same_but_consts(
                    old(self).classes@[class as int],
                    final(self).classes@[class as int],
                )
                &&& final(self).classes@[class as int].consts@.len() == old(self).classes@[
                    class as int].consts@.len() + 1
                &&& (forall|k: int|
                    0 <= k < old(self).classes@[class as int].consts@.len() ==> final(self).classes@[class as int].consts@[k] == old(self).classes@[
                        class as int].consts@[k])
                &&& final(self).classes@[class as int].consts@.last().name@ == name@
                &&& final(self).classes@[class as int].consts@.last().vis == vis
                &&& final(self).classes@[class as int].consts@.last().value == value
            },
            !ok ==> final(self).classes@ == old(self).classes@,
            old(self).wf_basic() ==> final(self).wf_basic(),
    {
        if class >= self.classes.len() {
            return false;
        }
        let mut e = self.classes.remove(class);
        e.consts.push(ConstEntry { name: name.to_owned(), vis, value });
        self.classes.insert(class, e);
        proof {
            assert(final(self).classes@ =~= old(self).classes@.update(
                class as int,
                final(self).classes@[class as int],
            ));
        }
        true
    }

    /// Publishes a finished node into the namespace under its
    /// registered type's canonical name and, optionally, a
    /// foreign-compatible alias. `false` reports an out-of-range node.
    pub fn register_builtin_type(
        &mut self,
        class: usize,
        t: Ty,
        vis: Visibility,
        muta: Mutability,
        alias: Option<&str>,
    ) -> (ok: bool)
        ensures
            final(self).py_compatible == old(self).py_compatible,
            final(self).classes@.len() == old(self).classes@.len(),
            forall|k: int|
                0 <= k < final(self).classes@.len() ==> (#[trigger] final(self).classes@[k]).name@
                    == old(self).classes@[k].name@ && final(self).classes@[k].superclass == old(self).classes@[k].superclass,
            forall|k: int|
                0 <= k < final(self).classes@.len() ==> (#[trigger] final(self).classes@[k]).markers@ == old(self).classes@[k].markers@,
            forall|k: int|
                0 <= k < final(self).classes@.len() ==> (#[trigger] final(self).classes@[k]).methods@ == old(self).classes@[k].methods@ && final(self).classes@[k].consts@ == old(self).classes@[k].consts@,
            ok == (class < old(self).classes@.len()),
            forall|k: int|
                0 <= k < final(self).classes@.len() && k != class ==> (#[trigger] final(self).classes@[k]) == old(self).classes@[k],
            ok ==> {
                &&& same_except(old(self).classes@, final(self).classes@, class as int)
                &&& entry_same_but_publication(
                    old(self).classes@[class as int],
                    final(self).classes@[class as int],
                )
                &&& final(self).classes@[class as int].typ == t
                &&& final(self).classes@[class as int].published
                &&& final(self).classes@[class as int].vis == vis
                &&& final(self).classes@[class as int].muta == muta
                &&& (match alias {
                    Some(a) => {
                        &&& final(self).namespace@.len() == old(self).namespace@.len() + 2
                        &&& final(self).namespace@[final(self).namespace@.len() - 2].0@ == old(self).classes@[class as int].name@
                        &&& final(self).namespace@[final(self).namespace@.len() - 2].1 == class
                        &&& final(self).namespace@.last().0@ == a@
                        &&& final(self).namespace@.last().1 == class
                    },
                    None => {
                        &&& final(self).namespace@.len() == old(self).namespace@.len() + 1
                        &&& final(self).namespace@.last().0@ == old(self).classes@[
                            class as int].name@
                        &&& final(self).namespace@.last().1 == class
                    },
                })
                &&& (forall|k: int|
                    0 <= k < old(self).namespace@.len() ==> final(self).namespace@[k] == old(self).namespace@[k])
            },
            !ok ==> final(self).classes@ == old(self).classes@ && final(self).namespace@ == old(self).namespace@,
            old(self).wf_basic() ==> final(self).wf_basic(),
    {
        if class >= self.classes.len() {
            return false;
        }
        let mut e = self.classes.remove(class);
        let canonical = e.name.clone();
        e.typ = t;
        e.published = true;
        e.vis = vis;
        e.muta = muta;
        self.classes.insert(class, e);
        self.namespace.push((canonical, class));
        match alias {
            Some(a) => {
                self.namespace.push((a.to_owned(), class));
            },
            None => {},
        }
        proof {
            assert(final(self).classes@ =~= old(self).classes@.update(
                class as int,
                final(self).classes@[class as int],
            ));
        }
        true
    }

    /// Runtime validation of full well-formedness: the arena
    /// discipline and canonical name uniqueness.
    pub fn check_well_formed(&self) -> (r: bool)
        ensures
            r == self.wf(),
    {
        let n = self.classes.len();
        let mut i: usize = 0;
        while i < n
            invariant
                n == self.classes@.len(),
                i <= n,
                forall|k: int|
                    0 <= k < i ==> ((#[trigger] self.classes@[k]).superclass matches Some(j) ==> j
                        < k),
            decreases n - i,
        {
            match self.classes[i].superclass {
                Some(j) => {
                    if j >= i {
                        return false;
                    }
                },
                None => {},
            }
            i = i + 1;
        }
        let mut i: usize = 0;
        while i < n
            invariant
                n == self.classes@.len(),
                i <= n,
                forall|a: int, b: int|
                    0 <= a < b < n && a < i ==> (#[trigger] self.classes@[a]).name@ != (
                    #[trigger] self.classes@[b]).name@,
                forall|k: int|
                    0 <= k < n ==> ((#[trigger] self.classes@[k]).superclass matches Some(j) ==> j
                        < k),
            decreases n - i,
        {
            let mut j: usize = i + 1;
            while j < n
                invariant
                    n == self.classes@.len(),
                    i < j || j == i + 1,
                    i < n,
                    j <= n,
                    forall|b: int| i < b < j ==> (#[trigger] self.classes@[b]).name@
                        != self.classes@[i as int].name@,
                decreases n - j,
            {
                if self.classes[i].name.eq(&self.classes[j].name) {
                    return false;
                }
                j = j + 1;
            }
            i = i + 1;
        }
        let mut k: usize = 0;
        while k < self.namespace.len()
            invariant
                n == self.classes@.len(),
                k <= self.namespace@.len(),
                forall|m: int| 0 <= m < k ==> (#[trigger] self.namespace@[m]).1 < n,
                forall|a: int, b: int|
                    0 <= a < b < n ==> (#[trigger] self.classes@[a]).name@ != (
                    #[trigger] self.classes@[b]).name@,
                forall|m: int|
                    0 <= m < n ==> ((#[trigger] self.classes@[m]).superclass matches Some(j) ==> j
                        < m),
            decreases self.namespace@.len() - k,
        {
            if self.namespace[k].1 >= n {
                return false;
            }
            k = k + 1;
        }
        true
    }
}


/// First method at or after `k` in a table whose name is `n`.
pub open spec fn method_from(ms: Seq<MethodEntry>, n: Seq<char>, k: int) -> Option<int>
    decreases ms.len() - k,
{
    if k < 0 || k >= ms.len() {
        None
    } else if ms[k].name@ == n {
        Some(k)
    } else {
        method_from(ms, n, k + 1)
    }
}

/// Characterizes `method_from`.
pub proof fn lemma_method_from(ms: Seq<MethodEntry>, n: Seq<char>, k: int)
    requires
        0 <= k <= ms.len(),
    ensures
        match method_from(ms, n, k) {
            Some(l) => {
                &&& k <= l < ms.len()
                &&& ms[l].name@ == n
                &&& forall|j: int| k <= j < l ==> (#[trigger] ms[j]).name@ != n
            },
            None => forall|j: int| k <= j < ms.len() ==> (#[trigger] ms[j]).name@ != n,
        },
    decreases ms.len() - k,
{
    if k < ms.len() && ms[k].name@ != n {
        lemma_method_from(ms, n, k + 1);
    }
}

/// First attached trait implementation at or after `k` whose table
/// answers `n`, with the method's index in that table.
pub open spec fn impl_method_from(ts: Seq<TraitImplEntry>, n: Seq<char>, k: int) -> Option<
    (int, int),
>
    decreases ts.len() - k,
{
    if k < 0 || k >= ts.len() {
        None
    } else {
        match method_from(ts[k].table.methods@, n, 0) {
            Some(m) => Some((k, m)),
            None => impl_method_from(ts, n, k + 1),
        }
    }
}

/// Characterizes `impl_method_from`.
pub proof fn lemma_impl_method_from(ts: Seq<TraitImplEntry>, n: Seq<char>, k: int)
    requires
        0 <= k <= ts.len(),
    ensures
        match impl_method_from(ts, n, k) {
            Some(km) => {
                &&& k <= km.0 < ts.len()
                &&& method_from(ts[km.0].table.methods@, n, 0) == Some(km.1)
                &&& forall|j: int|
                    k <= j < km.0 ==> method_from((#[trigger] ts[j]).table.methods@, n, 0) is None
            },
            None => forall|j: int|
                k <= j < ts.len() ==> method_from((#[trigger] ts[j]).table.methods@, n, 0) is None,
        },
    decreases ts.len() - k,
{
    if k < ts.len() && method_from(ts[k].table.methods@, n, 0) is None {
        lemma_impl_method_from(ts, n, k + 1);
    }
}

/// Resolution of a method name against entry `i`: the class's own
/// table first, then its attached trait implementations, then the
/// superclass — the first match wins; single inheritance makes
/// diamond ambiguity impossible by construction.
pub open spec fn resolve_in(cs: Seq<ClassEntry>, i: int, n: Seq<char>) -> Option<MethodEntry>
    decreases i,
{
    if 0 <= i < cs.len() {
        match method_from(cs[i].methods@, n, 0) {
            Some(k) => Some(cs[i].methods@[k]),
            None => match impl_method_from(cs[i].trait_impls@, n, 0) {
                Some(km) => Some(cs[i].trait_impls@[km.0].table.methods@[km.1]),
                None => match cs[i].superclass {
                    Some(j) => if 0 <= j < i {
                        resolve_in(cs, j as int, n)
                    } else {
                        None
                    },
                    None => None,
                },
            },
        }
    } else {
        None
    }
}

/// Resolution of a method name against a class type: by the nominal
/// head's registered entry.
pub open spec fn resolve_spec(cs: Seq<ClassEntry>, t: TyView, n: Seq<char>) -> Option<
    MethodEntry,
> {
    match t {
        TyView::Mono(h) => match lookup_name(cs, h) {
            Some(i) => resolve_in(cs, i, n),
            None => None,
        },
        TyView::Poly(h, _) => match lookup_name(cs, h) {
            Some(i) => resolve_in(cs, i, n),
            None => None,
        },
        _ => None,
    }
}

impl TypeUniverse {
    /// Finds the first own-table method with the given name.
    fn find_method_idx(ms: &Vec<MethodEntry>, name: &String) -> (r: Option<usize>)
        ensures
            match r {
                Some(k) => method_from(ms@, name@, 0) == Some(k as int) && k < ms@.len(),
                None => method_from(ms@, name@, 0) is None,
            },
    {
        let mut k: usize = 0;
        while k < ms.len()
            invariant
                k <= ms@.len(),
                forall|j: int| 0 <= j < k ==> (#[trigger] ms@[j]).name@ != name@,
            decreases ms@.len() - k,
        {
            if ms[k].name.eq(name) {
                proof {
                    lemma_method_from(ms@, name@, 0);
                    if method_from(ms@, name@, 0) is None {
                        assert(ms@[k as int].name@ != name@);
                    }
                }
                return Some(k);
            }
            k = k + 1;
        }
        proof {
            lemma_method_from(ms@, name@, 0);
        }
        None
    }

    /// Resolves a method name against entry `i` and its ancestors.
    fn resolve_method_in(&self, i: usize, name: &String) -> (r: Option<&MethodEntry>)
        ensures
            match r {
                Some(m) => resolve_in(self.classes@, i as int, name@) == Some(*m),
                None => resolve_in(self.classes@, i as int, name@) is None,
            },
        decreases i,
    {
        if i >= self.classes.len() {
            return None;
        }
        let entry = &self.classes[i];
        match Self::find_method_idx(&entry.methods, name) {
            Some(k) => Some(&entry.methods[k]),
            None => {
                let mut t: usize = 0;
                while t < entry.trait_impls.len()
                    invariant
                        i < self.classes@.len(),
                        *entry == self.classes@[i as int],
                        method_from(self.classes@[i as int].methods@, name@, 0) is None,
                        t <= entry.trait_impls@.len(),
                        forall|j: int|
                            0 <= j < t ==> method_from(
                                (#[trigger] entry.trait_impls@[j]).table.methods@,
                                name@,
                                0,
                            ) is None,
                    decreases entry.trait_impls@.len() - t,
                {
                    match Self::find_method_idx(&entry.trait_impls[t].table.methods, name) {
                        Some(k) => {
                            proof {
                                lemma_impl_method_from(entry.trait_impls@, name@, 0);
                                match impl_method_from(entry.trait_impls@, name@, 0) {
                                    Some(km) => {
                                        if km.0 < t {
                                            assert(method_from(
                                                entry.trait_impls@[km.0].table.methods@,
                                                name@,
                                                0,
                                            ) is None);
                                        }
                                        if (t as int) < km.0 {
                                            assert(method_from(
                                                entry.trait_impls@[t as int].table.methods@,
                                                name@,
                                                0,
                                            ) is None);
                                        }
                                        assert(km.0 == t as int);
                                    },
                                    None => {
                                        assert(method_from(
                                            entry.trait_impls@[t as int].table.methods@,
                                            name@,
                                            0,
                                        ) is None);
                                    },
                                }
                            }
                            return Some(&entry.trait_impls[t].table.methods[k]);
                        },
                        None => {},
                    }
                    t = t + 1;
                }
                proof {
                    lemma_impl_method_from(entry.trait_impls@, name@, 0);
                }
                match entry.superclass {
                    Some(j) => {
                        if j < i {
                            self.resolve_method_in(j, name)
                        } else {
                            None
                        }
                    },
                    None => None,
                }
            },
        }
    }

    /// Resolves which concrete member answers a (class, method-name)
    /// lookup: the class's own table, then its trait impls, then the
    /// superclass chain; the first match wins.
    pub fn resolve_method(&self, class: &Ty, name: &String) -> (r: Option<&MethodEntry>)
        ensures
            match r {
                Some(m) => resolve_spec(self.classes@, class.deep(), name@) == Some(*m),
                None => resolve_spec(self.classes@, class.deep(), name@) is None,
            },
    {
        let head: &String = match class {
            Ty::Mono(h) => h,
            Ty::Poly(h, _) => h,
            _ => {
                return None;
            },
        };
        match self.lookup_class(head.as_str()) {
            Some(i) => self.resolve_method_in(i, name),
            None => None,
        }
    }
}

/// Well-shaped capabilities: every attached capability is a nominal
/// or parametric trait type, and nominal capabilities are not
/// themselves registered entries.
pub open spec fn cap_shape_ok(cs: Seq<ClassEntry>, v: TyView) -> bool {
    match v {
        TyView::Mono(h) => lookup_name(cs, h) is None,
        TyView::Poly(h, _) => lookup_name(cs, h) is None,
        _ => false,
    }
}

/// All capabilities of all entries are well shaped.
pub open spec fn caps_ok(cs: Seq<ClassEntry>) -> bool {
    &&& forall|i: int, k: int|
        0 <= i < cs.len() && 0 <= k < cs[i].markers@.len() ==> cap_shape_ok(
            cs,
            (#[trigger] cs[i].markers@[k]).deep(),
        )
    &&& forall|i: int, k: int|
        0 <= i < cs.len() && 0 <= k < cs[i].trait_impls@.len() ==> ((
        #[trigger] cs[i].trait_impls@[k]).table.impl_trait is Some ==> cap_shape_ok(
            cs,
            cs[i].trait_impls@[k].table.impl_trait->0.deep(),
        ))
}

impl TypeUniverse {
    /// Whether one capability type is well shaped: nominal or
    /// parametric with an unregistered head.
    fn check_cap_shape(&self, t: &Ty) -> (r: bool)
        ensures
            r == cap_shape_ok(self.classes@, t.deep()),
    {
        match t {
            Ty::Mono(h) => self.lookup_class(h.as_str()).is_none(),
            Ty::Poly(h, _) => self.lookup_class(h.as_str()).is_none(),
            _ => false,
        }
    }

    /// Runtime validation that every attached capability — marker
    /// trait or implemented trait type — is a nominal or parametric
    /// trait with an unregistered head. The transitivity law asks
    /// this of the universe.
    pub fn check_capabilities_well_shaped(&self) -> (r: bool)
        ensures
            r == caps_ok(self.classes@),
    {
        let n = self.classes.len();
        let mut i: usize = 0;
        while i < n
            invariant
                n == self.classes@.len(),
                i <= n,
                forall|a: int, k: int|
                    0 <= a < i && 0 <= k < self.classes@[a].markers@.len() ==> cap_shape_ok(
                        self.classes@,
                        (#[trigger] self.classes@[a].markers@[k]).deep(),
                    ),
                forall|a: int, k: int|
                    0 <= a < i && 0 <= k < self.classes@[a].trait_impls@.len() ==> ((
                    #[trigger] self.classes@[a].trait_impls@[k]).table.impl_trait is Some
                        ==> cap_shape_ok(
                        self.classes@,
                        self.classes@[a].trait_impls@[k].table.impl_trait->0.deep(),
                    )),
            decreases n - i,
        {
            let entry = &self.classes[i];
            let mut k: usize = 0;
            while k < entry.markers.len()
                invariant
                    i < self.classes@.len(),
                    *entry == self.classes@[i as int],
                    k <= entry.markers@.len(),
                    forall|m: int|
                        0 <= m < k ==> cap_shape_ok(
                            self.classes@,
                            (#[trigger] entry.markers@[m]).deep(),
                        ),
                decreases entry.markers@.len() - k,
            {
                if !self.check_cap_shape(&entry.markers[k]) {
                    return false;
                }
                k = k + 1;
            }
            let mut k: usize = 0;
            while k < entry.trait_impls.len()
                invariant
                    i < self.classes@.len(),
                    *entry == self.classes@[i as int],
                    k <= entry.trait_impls@.len(),
                    forall|m: int|
                        0 <= m < k ==> ((#[trigger] entry.trait_impls@[m]).table.impl_trait
                            is Some ==> cap_shape_ok(
                            self.classes@,
                            entry.trait_impls@[m].table.impl_trait->0.deep(),
                        )),
                decreases entry.trait_impls@.len() - k,
            {
                match &entry.trait_impls[k].table.impl_trait {
                    Some(t) => {
                        if !self.check_cap_shape(t) {
                            return false;
                        }
                    },
                    None => {},
                }
                k = k + 1;
            }
            i = i + 1;
        }
        true
    }
}


} // verus!
