//! The const-expression evaluator: a fixed catalogue of compile-time
//! functions over values — class/trait constructors and bounded
//! accessors on builtin generic containers. Each takes its arguments
//! out of a `ValueArgs` bag; a required argument absent, or one of
//! the wrong value kind, is a structured error, never a silent
//! default. Failures propagate to the caller; nothing is recovered
//! locally.

use vstd::prelude::*;

use crate::error::ErrorCore;
use crate::error::ErrorKind;
use crate::error::Location;
use crate::error::dec_digits;
use crate::render::render_v;
use crate::render::render_value;
use crate::subtype::subtype_v;
use crate::ty::TyView;
use crate::universe::ClassEntry;
use crate::universe::TypeUniverse;
use crate::value::GenKind;
use crate::value::GenTypeObj;
use crate::value::GenView;
use crate::value::TypeObj;
use crate::value::TypeObjView;
use crate::value::VView;
use crate::value::ValueArgs;
use crate::value::ValueObj;
use crate::value::after_kw;
use crate::value::after_pos;
use crate::value::kw_first;
use crate::value::taken;

verus! {

/// What the checker gets to see: the evaluation context's name (the
/// name of the construct being defined) and the universe for subtype
/// queries.
pub struct EvalContext<'a> {
    pub name: String,
    pub universe: &'a TypeUniverse,
}

/// The mathematical outcome of one const-function call.
pub enum EvalOutcome {
    Value(VView),
    Failure(ErrorKind, Seq<char>),
}

/// Whether an executable result realizes an outcome: same value by
/// view, or an error of the same kind with the same message and no
/// source location.
pub open spec fn outcome_matches(r: Result<ValueObj, ErrorCore>, o: EvalOutcome) -> bool {
    match (r, o) {
        (Result::Ok(v), EvalOutcome::Value(w)) => v.deep() == w,
        (Result::Err(e), EvalOutcome::Failure(k, m)) => e.kind == k && e.loc == Location::Unknown
            && e.msg@ == m,
        _ => false,
    }
}

/// "{param} is not passed"
pub open spec fn msg_not_passed(param: Seq<char>) -> Seq<char> {
    param + (" is not passed")@
}

/// "{kind_word}{value} is passed to {param}"
pub open spec fn msg_wrong_kind(kind_word: Seq<char>, v: VView, param: Seq<char>) -> Seq<char> {
    kind_word + render_v(v) + (" is passed to ")@ + param
}

/// "[{contents}] has {len} elements, but accessed {idx}th element"
pub open spec fn msg_array_index(vs: Seq<VView>, idx: nat) -> Seq<char> {
    render_v(VView::Array(vs)) + (" has ")@ + dec_digits(vs.len()) + (
    " elements, but accessed ")@ + dec_digits(idx) + ("th element")@
}

/// "{dict} has no key {idx}"
pub open spec fn msg_no_key(d: VView, idx: VView) -> Seq<char> {
    render_v(d) + (" has no key ")@ + render_v(idx)
}

/// "Index out of range: {idx}"
pub open spec fn msg_range_oob(idx: nat) -> Seq<char> {
    ("Index out of range: ")@ + dec_digits(idx)
}

/// "no such const function: {name}"
pub open spec fn msg_no_const_fn(name: Seq<char>) -> Seq<char> {
    ("no such const function: ")@ + name
}

/// Outcome of a class or trait constructor taking `Requirement` and
/// an optional `Impl`.
pub open spec fn require_ctor_spec(
    pos: Seq<VView>,
    kws: Seq<(Seq<char>, VView)>,
    ctx_name: Seq<char>,
    kind: GenKind,
) -> EvalOutcome {
    match taken(pos, kws, ("Requirement")@) {
        Option::None => EvalOutcome::Failure(
            ErrorKind::KeyError,
            msg_not_passed(("Requirement")@),
        ),
        Option::Some(v1) => match v1 {
            VView::Type(req) => {
                let pos2 = after_pos(pos);
                let kws2 = after_kw(pos, kws, ("Requirement")@);
                match taken(pos2, kws2, ("Impl")@) {
                    Option::None => EvalOutcome::Value(
                        VView::Type(
                            TypeObjView::Generated(
                                (GenView {
                                    kind,
                                    t: TyView::Mono(ctx_name),
                                    require_or_sup: Box::new(req),
                                    impls: Option::None,
                                    additional: Option::None,
                                }),
                            ),
                        ),
                    ),
                    Option::Some(v2) => match v2 {
                        VView::Type(imp) => EvalOutcome::Value(
                            VView::Type(
                                TypeObjView::Generated(
                                    (GenView {
                                        kind,
                                        t: TyView::Mono(ctx_name),
                                        require_or_sup: Box::new(req),
                                        impls: Option::Some(Box::new(imp)),
                                        additional: Option::None,
                                    }),
                                ),
                            ),
                        ),
                        _ => EvalOutcome::Failure(
                            ErrorKind::TypeError,
                            msg_wrong_kind(("non-type object ")@, v2, ("Impl")@),
                        ),
                    },
                }
            },
            _ => EvalOutcome::Failure(
                ErrorKind::TypeError,
                msg_wrong_kind(("non-type object ")@, v1, ("Requirement")@),
            ),
        },
    }
}

/// Outcome of a subclass/subtrait constructor taking `Super` and
/// optional `Impl` and `Additional`.
pub open spec fn super_ctor_spec(
    pos: Seq<VView>,
    kws: Seq<(Seq<char>, VView)>,
    ctx_name: Seq<char>,
    kind: GenKind,
    kind_word: Seq<char>,
) -> EvalOutcome {
    match taken(pos, kws, ("Super")@) {
        Option::None => EvalOutcome::Failure(ErrorKind::KeyError, msg_not_passed(("Super")@)),
        Option::Some(v1) => match v1 {
            VView::Type(sup) => {
                let pos2 = after_pos(pos);
                let kws2 = after_kw(pos, kws, ("Super")@);
                match opt_type_taken(pos2, kws2, ("Impl")@) {
                    OptTypeTaken::Wrong(v2) => EvalOutcome::Failure(
                        ErrorKind::TypeError,
                        msg_wrong_kind(("non-type object ")@, v2, ("Impl")@),
                    ),
                    OptTypeTaken::Taken(impls) => {
                        let pos3 = after_pos(pos2);
                        let kws3 = after_kw(pos2, kws2, ("Impl")@);
                        match opt_type_taken(pos3, kws3, ("Additional")@) {
                            OptTypeTaken::Wrong(v3) => EvalOutcome::Failure(
                                ErrorKind::TypeError,
                                msg_wrong_kind(("non-type object ")@, v3, ("Additional")@),
                            ),
                            OptTypeTaken::Taken(additional) => EvalOutcome::Value(
                                VView::Type(
                                    TypeObjView::Generated(
                                        (GenView {
                                            kind,
                                            t: TyView::Mono(ctx_name),
                                            require_or_sup: Box::new(sup),
                                            impls,
                                            additional,
                                        }),
                                    ),
                                ),
                            ),
                        }
                    },
                }
            },
            _ => EvalOutcome::Failure(
                ErrorKind::TypeError,
                msg_wrong_kind(kind_word, v1, ("Super")@),
            ),
        },
    }
}

/// The result of taking an optional type-valued argument: absent,
/// present as a type, or present with the wrong kind.
pub enum OptTypeTaken {
    Taken(Option<Box<TypeObjView>>),
    Wrong(VView),
}

/// Takes an optional type argument from the bag.
pub open spec fn opt_type_taken(
    pos: Seq<VView>,
    kws: Seq<(Seq<char>, VView)>,
    name: Seq<char>,
) -> OptTypeTaken {
    match taken(pos, kws, name) {
        Option::None => OptTypeTaken::Taken(Option::None),
        Option::Some(v) => match v {
            VView::Type(t) => OptTypeTaken::Taken(Option::Some(Box::new(t))),
            _ => OptTypeTaken::Wrong(v),
        },
    }
}

/// The rewrite `inheritable_func` performs on a generated class: its
/// `Impl` slot gains the inheritable marker trait, by intersection.
pub open spec fn inheritable_rewrite(g: GenView) -> GenView {
    let marker = TyView::Mono(("InheritableType")@);
    let impls = match g.impls {
        Option::Some(b) => match *b {
            TypeObjView::Generated(g2) => Option::Some(
                Box::new(
                    TypeObjView::Generated(
                        (GenView {
                            kind: g2.kind,
                            t: TyView::And(Box::new(g2.t), Box::new(marker)),
                            require_or_sup: g2.require_or_sup,
                            impls: g2.impls,
                            additional: g2.additional,
                        }),
                    ),
                ),
            ),
            TypeObjView::Builtin(t2) => Option::Some(
                Box::new(TypeObjView::Builtin(TyView::And(Box::new(t2), Box::new(marker)))),
            ),
        },
        Option::None => Option::Some(Box::new(TypeObjView::Builtin(marker))),
    };
    GenView {
        kind: g.kind,
        t: g.t,
        require_or_sup: g.require_or_sup,
        impls,
        additional: g.additional,
    }
}

/// Outcome of `inheritable_func`.
pub open spec fn inheritable_spec(pos: Seq<VView>, kws: Seq<(Seq<char>, VView)>) -> EvalOutcome {
    match taken(pos, kws, ("Class")@) {
        Option::None => EvalOutcome::Failure(ErrorKind::KeyError, msg_not_passed(("Class")@)),
        Option::Some(v1) => match v1 {
            VView::Type(TypeObjView::Generated(g)) => EvalOutcome::Value(
                VView::Type(TypeObjView::Generated(inheritable_rewrite(g))),
            ),
            _ => EvalOutcome::Failure(
                ErrorKind::TypeError,
                msg_wrong_kind(("non-class object ")@, v1, ("Class")@),
            ),
        },
    }
}

/// Outcome of array indexing: the element, or an index-range error
/// carrying the printed contents, the length and the offending index.
pub open spec fn array_getitem_spec(pos: Seq<VView>, kws: Seq<(Seq<char>, VView)>) -> EvalOutcome {
    match taken(pos, kws, ("Self")@) {
        Option::None => EvalOutcome::Failure(ErrorKind::KeyError, msg_not_passed(("Self")@)),
        Option::Some(v1) => match v1 {
            VView::Array(vs) => {
                let pos2 = after_pos(pos);
                let kws2 = after_kw(pos, kws, ("Self")@);
                match taken(pos2, kws2, ("Index")@) {
                    Option::None => EvalOutcome::Failure(
                        ErrorKind::KeyError,
                        msg_not_passed(("Index")@),
                    ),
                    Option::Some(v2) => match v2 {
                        VView::Nat(n) => if n < vs.len() {
                            EvalOutcome::Value(vs[n as int])
                        } else {
                            EvalOutcome::Failure(ErrorKind::IndexError, msg_array_index(vs, n))
                        },
                        _ => EvalOutcome::Failure(
                            ErrorKind::TypeError,
                            msg_wrong_kind(("non-nat object ")@, v2, ("Index")@),
                        ),
                    },
                }
            },
            _ => EvalOutcome::Failure(
                ErrorKind::TypeError,
                msg_wrong_kind(("non-array object ")@, v1, ("Self")@),
            ),
        },
    }
}

/// First dictionary entry at or after `k` whose key equals `idx`.
pub open spec fn dict_exact_from(kvs: Seq<(VView, VView)>, idx: VView, k: int) -> Option<int>
    decreases kvs.len() - k,
{
    if k < 0 || k >= kvs.len() {
        Option::None
    } else if kvs[k].0 == idx {
        Option::Some(k)
    } else {
        dict_exact_from(kvs, idx, k + 1)
    }
}

/// The nominal type a type value denotes.
pub open spec fn tov_typ(t: TypeObjView) -> TyView {
    match t {
        TypeObjView::Builtin(u) => u,
        TypeObjView::Generated(g) => g.t,
    }
}

/// Whether `idx` and the key are both types with `idx` a subtype of
/// the key.
pub open spec fn key_sub_matches(cs: Seq<ClassEntry>, idx: VView, key: VView) -> bool {
    match (idx, key) {
        (VView::Type(ti), VView::Type(tk)) => subtype_v(cs, tov_typ(ti), tov_typ(tk)),
        _ => false,
    }
}

/// First dictionary entry at or after `k` whose type key the type
/// `idx` is a subtype of.
pub open spec fn dict_sub_from(
    cs: Seq<ClassEntry>,
    kvs: Seq<(VView, VView)>,
    idx: VView,
    k: int,
) -> Option<int>
    decreases kvs.len() - k,
{
    if k < 0 || k >= kvs.len() {
        Option::None
    } else if key_sub_matches(cs, idx, kvs[k].0) {
        Option::Some(k)
    } else {
        dict_sub_from(cs, kvs, idx, k + 1)
    }
}

/// Outcome of dictionary indexing: exact-match lookup first, then the
/// first subtype-compatible type key, else a no-such-key error naming
/// the dictionary and the missing key.
pub open spec fn dict_getitem_spec(
    cs: Seq<ClassEntry>,
    pos: Seq<VView>,
    kws: Seq<(Seq<char>, VView)>,
) -> EvalOutcome {
    match taken(pos, kws, ("Self")@) {
        Option::None => EvalOutcome::Failure(ErrorKind::KeyError, msg_not_passed(("Self")@)),
        Option::Some(v1) => match v1 {
            VView::Dict(kvs) => {
                let pos2 = after_pos(pos);
                let kws2 = after_kw(pos, kws, ("Self")@);
                match taken(pos2, kws2, ("Index")@) {
                    Option::None => EvalOutcome::Failure(
                        ErrorKind::KeyError,
                        msg_not_passed(("Index")@),
                    ),
                    Option::Some(idx) => match dict_exact_from(kvs, idx, 0) {
                        Option::Some(k) => EvalOutcome::Value(kvs[k].1),
                        Option::None => match dict_sub_from(cs, kvs, idx, 0) {
                            Option::Some(k) => EvalOutcome::Value(kvs[k].1),
                            Option::None => EvalOutcome::Failure(
                                ErrorKind::IndexError,
                                msg_no_key(VView::Dict(kvs), idx),
                            ),
                        },
                    },
                }
            },
            _ => EvalOutcome::Failure(
                ErrorKind::TypeError,
                msg_wrong_kind(("non-dict object ")@, v1, ("Self")@),
            ),
        },
    }
}

/// Outcome of range indexing: `start + index` when it stays below
/// `end`, else an out-of-range error naming the index. Ranges are
/// exclusive at `end`; inclusive ranges are not yet distinguished —
/// a documented gap, pinned by a test rather than silently widened.
pub open spec fn range_getitem_spec(pos: Seq<VView>, kws: Seq<(Seq<char>, VView)>) -> EvalOutcome {
    match taken(pos, kws, ("Self")@) {
        Option::None => EvalOutcome::Failure(ErrorKind::KeyError, msg_not_passed(("Self")@)),
        Option::Some(v1) => match v1 {
            VView::DataClass(_name, fields) => {
                let pos2 = after_pos(pos);
                let kws2 = after_kw(pos, kws, ("Self")@);
                match taken(pos2, kws2, ("Index")@) {
                    Option::None => EvalOutcome::Failure(
                        ErrorKind::KeyError,
                        msg_not_passed(("Index")@),
                    ),
                    Option::Some(v2) => match v2 {
                        VView::Nat(n) => match kw_first(fields, ("start")@) {
                            Option::None => EvalOutcome::Failure(
                                ErrorKind::KeyError,
                                msg_not_passed(("start")@),
                            ),
                            Option::Some(si) => match kw_first(fields, ("end")@) {
                                Option::None => EvalOutcome::Failure(
                                    ErrorKind::KeyError,
                                    msg_not_passed(("end")@),
                                ),
                                Option::Some(ei) => match (fields[si].1, fields[ei].1) {
                                    (VView::Nat(start), VView::Nat(end)) => if start + n < end {
                                        EvalOutcome::Value(VView::Nat(start + n))
                                    } else {
                                        EvalOutcome::Failure(
                                            ErrorKind::IndexError,
                                            msg_range_oob(n),
                                        )
                                    },
                                    _ => EvalOutcome::Failure(
                                        ErrorKind::TypeError,
                                        msg_wrong_kind(("non-nat object ")@, v1, ("Self")@),
                                    ),
                                },
                            },
                        },
                        _ => EvalOutcome::Failure(
                            ErrorKind::TypeError,
                            msg_wrong_kind(("non-nat object ")@, v2, ("Index")@),
                        ),
                    },
                }
            },
            _ => EvalOutcome::Failure(
                ErrorKind::TypeError,
                msg_wrong_kind(("non-range object ")@, v1, ("Self")@),
            ),
        },
    }
}

/// Builds "{param} is not passed".
fn not_passed_msg(param: &str) -> (r: String)
    ensures
        r@ == msg_not_passed(param@),
{
    let mut m = param.to_owned();
    m.append(" is not passed");
    m
}

/// Builds "{kind_word}{value} is passed to {param}".
fn wrong_kind_msg(kind_word: &str, v: &ValueObj, param: &str) -> (r: String)
    ensures
        r@ == msg_wrong_kind(kind_word@, v.deep(), param@),
{
    let mut m = kind_word.to_owned();
    let rendered = render_value(v);
    m.append(rendered.as_str());
    m.append(" is passed to ");
    m.append(param);
    proof {
        assert(m@ =~= msg_wrong_kind(kind_word@, v.deep(), param@));
    }
    m
}

/// A `KeyError` for a required argument that was not supplied.
fn key_error(param: &str) -> (r: ErrorCore)
    ensures
        r.kind == ErrorKind::KeyError,
        r.loc == Location::Unknown,
        r.msg@ == msg_not_passed(param@),
{
    ErrorCore::new(ErrorKind::KeyError, Location::Unknown, not_passed_msg(param))
}

/// A `TypeError` for an argument of the wrong value kind.
fn kind_error(kind_word: &str, v: &ValueObj, param: &str) -> (r: ErrorCore)
    ensures
        r.kind == ErrorKind::TypeError,
        r.loc == Location::Unknown,
        r.msg@ == msg_wrong_kind(kind_word@, v.deep(), param@),
{
    ErrorCore::new(ErrorKind::TypeError, Location::Unknown, wrong_kind_msg(kind_word, v, param))
}

/// Shared body of the two `Requirement`/`Impl` constructors.
fn require_ctor(args: ValueArgs, ctx: &EvalContext<'_>, kind: GenKind) -> (r: Result<
    ValueObj,
    ErrorCore,
>)
    ensures
        outcome_matches(r, require_ctor_spec(args.pos_view(), args.kw_view(), ctx.name@, kind)),
{
    let mut args = args;
    match args.remove_left_or_key("Requirement") {
        Option::None => Result::Err(key_error("Requirement")),
        Option::Some(v) => match v {
            ValueObj::Type(req) => match args.remove_left_or_key("Impl") {
                Option::None => Result::Ok(
                    ValueObj::Type(
                        TypeObj::Generated(
                            GenTypeObj {
                                kind,
                                t: crate::ty::Ty::Mono(ctx.name.clone()),
                                require_or_sup: Box::new(req),
                                impls: Option::None,
                                additional: Option::None,
                            },
                        ),
                    ),
                ),
                Option::Some(v2) => match v2 {
                    ValueObj::Type(imp) => Result::Ok(
                        ValueObj::Type(
                            TypeObj::Generated(
                                GenTypeObj {
                                    kind,
                                    t: crate::ty::Ty::Mono(ctx.name.clone()),
                                    require_or_sup: Box::new(req),
                                    impls: Option::Some(Box::new(imp)),
                                    additional: Option::None,
                                },
                            ),
                        ),
                    ),
                    other => Result::Err(kind_error("non-type object ", &other, "Impl")),
                },
            },
            other => Result::Err(kind_error("non-type object ", &other, "Requirement")),
        },
    }
}

/// Shared body of the two `Super`/`Impl`/`Additional` constructors.
fn super_ctor(args: ValueArgs, ctx: &EvalContext<'_>, kind: GenKind, kind_word: &str) -> (r:
    Result<ValueObj, ErrorCore>)
    ensures
        outcome_matches(
            r,
            super_ctor_spec(args.pos_view(), args.kw_view(), ctx.name@, kind, kind_word@),
        ),
{
    let mut args = args;
    match args.remove_left_or_key("Super") {
        Option::None => Result::Err(key_error("Super")),
        Option::Some(v) => match v {
            ValueObj::Type(sup) => {
                let impls: Option<Box<TypeObj>> = match args.remove_left_or_key("Impl") {
                    Option::None => Option::None,
                    Option::Some(v2) => match v2 {
                        ValueObj::Type(imp) => Option::Some(Box::new(imp)),
                        other => {
                            return Result::Err(kind_error("non-type object ", &other, "Impl"));
                        },
                    },
                };
                let additional: Option<Box<TypeObj>> = match args.remove_left_or_key(
                    "Additional",
                ) {
                    Option::None => Option::None,
                    Option::Some(v3) => match v3 {
                        ValueObj::Type(add) => Option::Some(Box::new(add)),
                        other => {
                            return Result::Err(
                                kind_error("non-type object ", &other, "Additional"),
                            );
                        },
                    },
                };
                Result::Ok(
                    ValueObj::Type(
                        TypeObj::Generated(
                            GenTypeObj {
                                kind,
                                t: crate::ty::Ty::Mono(ctx.name.clone()),
                                require_or_sup: Box::new(sup),
                                impls,
                                additional,
                            },
                        ),
                    ),
                )
            },
            other => Result::Err(kind_error(kind_word, &other, "Super")),
        },
    }
}

/// `Requirement: Type, Impl := Type -> ClassType`: builds a fresh
/// nominal class whose conformance requirement is `Requirement` and
/// whose self-declared capability is `Impl`.
pub fn class_func(args: ValueArgs, ctx: &EvalContext<'_>) -> (r: Result<ValueObj, ErrorCore>)
    ensures
        outcome_matches(
            r,
            require_ctor_spec(args.pos_view(), args.kw_view(), ctx.name@, GenKind::Class),
        ),
{
    require_ctor(args, ctx, GenKind::Class)
}

/// `Requirement: Type, Impl := Type -> TraitType`: trait analogue of
/// `class_func`.
pub fn trait_func(args: ValueArgs, ctx: &EvalContext<'_>) -> (r: Result<ValueObj, ErrorCore>)
    ensures
        outcome_matches(
            r,
            require_ctor_spec(args.pos_view(), args.kw_view(), ctx.name@, GenKind::Trait),
        ),
{
    require_ctor(args, ctx, GenKind::Trait)
}

/// `Super: ClassType, Impl := Type, Additional := Type -> ClassType`:
/// builds a subclass of `Super`, optionally adding capability `Impl`
/// and extra required members `Additional`.
pub fn inherit_func(args: ValueArgs, ctx: &EvalContext<'_>) -> (r: Result<ValueObj, ErrorCore>)
    ensures
        outcome_matches(
            r,
            super_ctor_spec(
                args.pos_view(),
                args.kw_view(),
                ctx.name@,
                GenKind::Inherited,
                ("non-class object ")@,
            ),
        ),
{
    super_ctor(args, ctx, GenKind::Inherited, "non-class object ")
}

/// `Super: TraitType, Impl := Type, Additional := Type -> TraitType`:
/// trait analogue of `inherit_func`.
pub fn subsume_func(args: ValueArgs, ctx: &EvalContext<'_>) -> (r: Result<ValueObj, ErrorCore>)
    ensures
        outcome_matches(
            r,
            super_ctor_spec(
                args.pos_view(),
                args.kw_view(),
                ctx.name@,
                GenKind::Subsumed,
                ("non-trait object ")@,
            ),
        ),
{
    super_ctor(args, ctx, GenKind::Subsumed, "non-trait object ")
}

/// `Class: ClassType -> ClassType`: rewrites the class's declared
/// `Impl` type in place, intersecting in the inheritable marker
/// trait. A compiler annotation with no runtime effect, used later to
/// permit the class to appear on the right of `inherit_func`.
#[verifier::rlimit(100)]
pub fn inheritable_func(args: ValueArgs, _ctx: &EvalContext<'_>) -> (r: Result<
    ValueObj,
    ErrorCore,
>)
    ensures
        outcome_matches(r, inheritable_spec(args.pos_view(), args.kw_view())),
{
    let mut args = args;
    match args.remove_left_or_key("Class") {
        Option::None => Result::Err(key_error("Class")),
        Option::Some(v) => match v {
            ValueObj::Type(TypeObj::Generated(gen)) => {
                let ghost gv = gen.deep();
                let GenTypeObj { kind, t, require_or_sup, impls, additional } = gen;
                let marker = crate::ty::mono("InheritableType");
                let new_impls: Option<Box<TypeObj>> = match impls {
                    Option::Some(b) => match *b {
                        TypeObj::Generated(g2) => {
                            let GenTypeObj {
                                kind: k2,
                                t: t2,
                                require_or_sup: r2,
                                impls: i2,
                                additional: a2,
                            } = g2;
                            Option::Some(
                                Box::new(
                                    TypeObj::Generated(
                                        GenTypeObj {
                                            kind: k2,
                                            t: crate::ty::and(t2, marker),
                                            require_or_sup: r2,
                                            impls: i2,
                                            additional: a2,
                                        },
                                    ),
                                ),
                            )
                        },
                        TypeObj::Builtin(t2) => Option::Some(
                            Box::new(TypeObj::Builtin(crate::ty::and(t2, marker))),
                        ),
                    },
                    Option::None => Option::Some(Box::new(TypeObj::Builtin(marker))),
                };
                let res = ValueObj::Type(
                    TypeObj::Generated(
                        GenTypeObj { kind, t, require_or_sup, impls: new_impls, additional },
                    ),
                );
                proof {
                    reveal_with_fuel(crate::value::GenTypeObj::deep, 3);
                    reveal_with_fuel(crate::value::TypeObj::deep, 3);
                    reveal_with_fuel(crate::value::ValueObj::deep, 2);
                    assert(res.deep() == VView::Type(
                        TypeObjView::Generated(inheritable_rewrite(gv)),
                    ));
                }
                Result::Ok(res)
            },
            other => Result::Err(kind_error("non-class object ", &other, "Class")),
        },
    }
}

/// `Self: Array, Index: Nat -> element`: bounds-checked array
/// indexing; out of range fails with the printed contents, the
/// length and the offending index.
pub fn __array_getitem__(args: ValueArgs, _ctx: &EvalContext<'_>) -> (r: Result<
    ValueObj,
    ErrorCore,
>)
    ensures
        outcome_matches(r, array_getitem_spec(args.pos_view(), args.kw_view())),
{
    let mut args = args;
    match args.remove_left_or_key("Self") {
        Option::None => Result::Err(key_error("Self")),
        Option::Some(v) => match v {
            ValueObj::Array(vs) => match args.remove_left_or_key("Index") {
                Option::None => Result::Err(key_error("Index")),
                Option::Some(v2) => match v2 {
                    ValueObj::Nat(n) => {
                        proof {
                            crate::value::lemma_deep_v_seq(vs@);
                        }
                        if n < vs.len() as u64 {
                            let elem = vs[n as usize].clone();
                            Result::Ok(elem)
                        } else {
                            let arr = ValueObj::Array(vs);
                            let mut m = render_value(&arr);
                            m.append(" has ");
                            let ghost vsv = match arr.deep() {
                                VView::Array(x) => x,
                                _ => Seq::empty(),
                            };
                            let len64: u64 = match &arr {
                                ValueObj::Array(vs2) => vs2.len() as u64,
                                _ => 0,
                            };
                            m.append(crate::error::nat_to_string(len64).as_str());
                            m.append(" elements, but accessed ");
                            m.append(crate::error::nat_to_string(n).as_str());
                            m.append("th element");
                            proof {
                                assert(m@ =~= msg_array_index(vsv, n as nat));
                            }
                            Result::Err(
                                ErrorCore::new(ErrorKind::IndexError, Location::Unknown, m),
                            )
                        }
                    },
                    other => Result::Err(kind_error("non-nat object ", &other, "Index")),
                },
            },
            other => Result::Err(kind_error("non-array object ", &other, "Self")),
        },
    }
}

/// Characterizes `dict_exact_from`.
proof fn lemma_dict_exact_from(kvs: Seq<(VView, VView)>, idx: VView, k: int)
    requires
        0 <= k <= kvs.len(),
    ensures
        match dict_exact_from(kvs, idx, k) {
            Option::Some(l) => {
                &&& k <= l < kvs.len()
                &&& kvs[l].0 == idx
                &&& forall|j: int| k <= j < l ==> (#[trigger] kvs[j]).0 != idx
            },
            Option::None => forall|j: int| k <= j < kvs.len() ==> (#[trigger] kvs[j]).0 != idx,
        },
    decreases kvs.len() - k,
{
    if k < kvs.len() && kvs[k].0 != idx {
        lemma_dict_exact_from(kvs, idx, k + 1);
    }
}

/// Characterizes `dict_sub_from`.
proof fn lemma_dict_sub_from(cs: Seq<ClassEntry>, kvs: Seq<(VView, VView)>, idx: VView, k: int)
    requires
        0 <= k <= kvs.len(),
    ensures
        match dict_sub_from(cs, kvs, idx, k) {
            Option::Some(l) => {
                &&& k <= l < kvs.len()
                &&& key_sub_matches(cs, idx, kvs[l].0)
                &&& forall|j: int| k <= j < l ==> !key_sub_matches(cs, idx, (#[trigger] kvs[j]).0)
            },
            Option::None => forall|j: int|
                k <= j < kvs.len() ==> !key_sub_matches(cs, idx, (#[trigger] kvs[j]).0),
        },
    decreases kvs.len() - k,
{
    if k < kvs.len() && !key_sub_matches(cs, idx, kvs[k].0) {
        lemma_dict_sub_from(cs, kvs, idx, k + 1);
    }
}

/// `Self: Dict, Index: value -> element`: exact-match lookup first;
/// for type-keyed dictionaries, falls back to the first
/// subtype-compatible key before failing with a no-such-key error.
#[verifier::rlimit(100)]
#[verifier::loop_isolation(false)]
pub fn __dict_getitem__(args: ValueArgs, ctx: &EvalContext<'_>) -> (r: Result<ValueObj, ErrorCore>)
    ensures
        outcome_matches(
            r,
            dict_getitem_spec(ctx.universe.classes@, args.pos_view(), args.kw_view()),
        ),
{
    let mut args = args;
    match args.remove_left_or_key("Self") {
        Option::None => Result::Err(key_error("Self")),
        Option::Some(v) => match v {
            ValueObj::Dict(kvs) => match args.remove_left_or_key("Index") {
                Option::None => Result::Err(key_error("Index")),
                Option::Some(index) => {
                    proof {
                        crate::value::lemma_deep_vpair_seq(kvs@);
                    }
                    let ghost kvv = crate::value::deep_vpair_seq(kvs@);
                    let ghost idxv = index.deep();
                    let mut k: usize = 0;
                    while k < kvs.len()
                        invariant
                            k <= kvs@.len(),
                            kvv == crate::value::deep_vpair_seq(kvs@),
                            kvv.len() == kvs@.len(),
                            idxv == index.deep(),
                            forall|j: int|
                                0 <= j < kvs@.len() ==> kvv[j] == ((#[trigger] kvs@[j]).0.deep(),
                                kvs@[j].1.deep()),
                            forall|j: int| 0 <= j < k ==> (#[trigger] kvv[j]).0 != idxv,
                        decreases kvs@.len() - k,
                    {
                        if crate::value::value_eq(&kvs[k].0, &index) {
                            proof {
                                lemma_dict_exact_from(kvv, idxv, 0);
                            }
                            return Result::Ok(kvs[k].1.clone());
                        }
                        k = k + 1;
                    }
                    proof {
                        lemma_dict_exact_from(kvv, idxv, 0);
                    }
                    let mut k: usize = 0;
                    while k < kvs.len()
                        invariant
                            k <= kvs@.len(),
                            kvv == crate::value::deep_vpair_seq(kvs@),
                            kvv.len() == kvs@.len(),
                            idxv == index.deep(),
                            forall|j: int|
                                0 <= j < kvs@.len() ==> kvv[j] == ((#[trigger] kvs@[j]).0.deep(),
                                kvs@[j].1.deep()),
                            forall|j: int|
                                0 <= j < k ==> !key_sub_matches(
                                    ctx.universe.classes@,
                                    idxv,
                                    (#[trigger] kvv[j]).0,
                                ),
                        decreases kvs@.len() - k,
                    {
                        let matched = match (&index, &kvs[k].0) {
                            (ValueObj::Type(ti), ValueObj::Type(tk)) => ctx.universe.is_subtype(
                                ti.typ(),
                                tk.typ(),
                            ),
                            _ => false,
                        };
                        if matched {
                            proof {
                                lemma_dict_sub_from(ctx.universe.classes@, kvv, idxv, 0);
                            }
                            return Result::Ok(kvs[k].1.clone());
                        }
                        k = k + 1;
                    }
                    proof {
                        lemma_dict_sub_from(ctx.universe.classes@, kvv, idxv, 0);
                    }
                    let dict = ValueObj::Dict(kvs);
                    let mut m = render_value(&dict);
                    m.append(" has no key ");
                    let rendered = render_value(&index);
                    m.append(rendered.as_str());
                    proof {
                        assert(m@ =~= msg_no_key(VView::Dict(kvv), idxv));
                    }
                    Result::Err(ErrorCore::new(ErrorKind::IndexError, Location::Unknown, m))
                },
            },
            other => Result::Err(kind_error("non-dict object ", &other, "Self")),
        },
    }
}

/// Finds the first field with the given name.
fn field_lookup(fields: &Vec<(String, ValueObj)>, name: &str) -> (r: Option<usize>)
    ensures
        match r {
            Option::Some(i) => kw_first(crate::value::deep_field_seq(fields@), name@)
                == Option::Some(i as int) && i < fields@.len(),
            Option::None => kw_first(crate::value::deep_field_seq(fields@), name@) is None,
        },
{
    proof {
        crate::value::lemma_deep_field_seq(fields@);
    }
    let ghost fv = crate::value::deep_field_seq(fields@);
    let name_owned = name.to_owned();
    let mut i: usize = 0;
    while i < fields.len()
        invariant
            i <= fields@.len(),
            fv == crate::value::deep_field_seq(fields@),
            fv.len() == fields@.len(),
            name_owned@ == name@,
            forall|j: int|
                0 <= j < fields@.len() ==> fv[j] == ((#[trigger] fields@[j]).0@,
                fields@[j].1.deep()),
            forall|j: int| 0 <= j < i ==> (#[trigger] fv[j]).0 != name@,
        decreases fields@.len() - i,
    {
        if fields[i].0.eq(&name_owned) {
            proof {
                crate::value::lemma_kw_first(fv, name@, 0);
                if kw_first(fv, name@) is None {
                    assert(fv[i as int].0 != name@);
                }
            }
            return Option::Some(i);
        }
        i = i + 1;
    }
    proof {
        crate::value::lemma_kw_first(fv, name@, 0);
    }
    Option::None
}

/// `Self: Range{start, end}, Index: Nat -> Nat`: returns
/// `start + Index` when it is below `end`, else an out-of-range
/// error naming the index.
#[verifier::rlimit(60)]
pub fn __range_getitem__(args: ValueArgs, _ctx: &EvalContext<'_>) -> (r: Result<
    ValueObj,
    ErrorCore,
>)
    ensures
        outcome_matches(r, range_getitem_spec(args.pos_view(), args.kw_view())),
{
    let mut args = args;
    match args.remove_left_or_key("Self") {
        Option::None => Result::Err(key_error("Self")),
        Option::Some(v) => match v {
            ValueObj::DataClass { name: _name, fields } => match args.remove_left_or_key(
                "Index",
            ) {
                Option::None => Result::Err(key_error("Index")),
                Option::Some(v2) => match v2 {
                    ValueObj::Nat(n) => {
                        let si = field_lookup(&fields, "start");
                        let ei = field_lookup(&fields, "end");
                        proof {
                            crate::value::lemma_deep_field_seq(fields@);
                        }
                        match si {
                            Option::None => Result::Err(key_error("start")),
                            Option::Some(si) => match ei {
                                Option::None => Result::Err(key_error("end")),
                                Option::Some(ei) => {
                                    match (&fields[si].1, &fields[ei].1) {
                                        (ValueObj::Nat(start), ValueObj::Nat(end)) => {
                                            let start: u64 = *start;
                                            let end: u64 = *end;
                                            if (start as u128) + (n as u128) < (end as u128) {
                                                Result::Ok(ValueObj::Nat(start + n))
                                            } else {
                                                let mut m = (
                                                "Index out of range: ").to_owned();
                                                m.append(
                                                    crate::error::nat_to_string(n).as_str(),
                                                );
                                                Result::Err(
                                                    ErrorCore::new(
                                                        ErrorKind::IndexError,
                                                        Location::Unknown,
                                                        m,
                                                    ),
                                                )
                                            }
                                        },
                                        _ => {
                                            let slf = ValueObj::DataClass {
                                                name: _name,
                                                fields,
                                            };
                                            Result::Err(
                                                kind_error("non-nat object ", &slf, "Self"),
                                            )
                                        },
                                    }
                                },
                            },
                        }
                    },
                    other => Result::Err(kind_error("non-nat object ", &other, "Index")),
                },
            },
            other => Result::Err(kind_error("non-range object ", &other, "Self")),
        },
    }
}

/// The const-function catalogue, dispatched by name.
pub open spec fn const_fn_dispatch(
    fn_name: Seq<char>,
    cs: Seq<ClassEntry>,
    pos: Seq<VView>,
    kws: Seq<(Seq<char>, VView)>,
    ctx_name: Seq<char>,
) -> EvalOutcome {
    if fn_name == ("class_func")@ {
        require_ctor_spec(pos, kws, ctx_name, GenKind::Class)
    } else if fn_name == ("trait_func")@ {
        require_ctor_spec(pos, kws, ctx_name, GenKind::Trait)
    } else if fn_name == ("inherit_func")@ {
        super_ctor_spec(pos, kws, ctx_name, GenKind::Inherited, ("non-class object ")@)
    } else if fn_name == ("subsume_func")@ {
        super_ctor_spec(pos, kws, ctx_name, GenKind::Subsumed, ("non-trait object ")@)
    } else if fn_name == ("inheritable_func")@ {
        inheritable_spec(pos, kws)
    } else if fn_name == ("__array_getitem__")@ {
        array_getitem_spec(pos, kws)
    } else if fn_name == ("__dict_getitem__")@ {
        dict_getitem_spec(cs, pos, kws)
    } else if fn_name == ("__range_getitem__")@ {
        range_getitem_spec(pos, kws)
    } else {
        EvalOutcome::Failure(ErrorKind::KeyError, msg_no_const_fn(fn_name))
    }
}

/// Calls a catalogued const function by name; an unknown name is a
/// structured error.
pub fn call_const_function(fn_name: &str, args: ValueArgs, ctx: &EvalContext<'_>) -> (r: Result<
    ValueObj,
    ErrorCore,
>)
    ensures
        outcome_matches(
            r,
            const_fn_dispatch(
                fn_name@,
                ctx.universe.classes@,
                args.pos_view(),
                args.kw_view(),
                ctx.name@,
            ),
        ),
{
    let name = fn_name.to_owned();
    if name.eq(&("class_func").to_owned()) {
        class_func(args, ctx)
    } else if name.eq(&("trait_func").to_owned()) {
        trait_func(args, ctx)
    } else if name.eq(&("inherit_func").to_owned()) {
        inherit_func(args, ctx)
    } else if name.eq(&("subsume_func").to_owned()) {
        subsume_func(args, ctx)
    } else if name.eq(&("inheritable_func").to_owned()) {
        inheritable_func(args, ctx)
    } else if name.eq(&("__array_getitem__").to_owned()) {
        __array_getitem__(args, ctx)
    } else if name.eq(&("__dict_getitem__").to_owned()) {
        __dict_getitem__(args, ctx)
    } else if name.eq(&("__range_getitem__").to_owned()) {
        __range_getitem__(args, ctx)
    } else {
        let mut m = ("no such const function: ").to_owned();
        m.append(fn_name);
        Result::Err(ErrorCore::new(ErrorKind::KeyError, Location::Unknown, m))
    }
}

} // verus!
