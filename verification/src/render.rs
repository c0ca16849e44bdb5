//! Compact rendering of values and types for diagnostic messages:
//! the evaluator's errors name the offending value and, where it
//! helps, the full container contents.

use vstd::prelude::*;

use crate::error::dec_digits;
use crate::ty::TyView;
use crate::value::SubrView;
use crate::value::TypeObjView;
use crate::value::VView;
use crate::value::ValueObj;
use crate::value::deep_v_seq;
use crate::value::deep_vpair_seq;
use crate::value::lemma_deep_v_seq;
use crate::value::lemma_deep_vpair_seq;

verus! {

/// "True"
pub open spec fn lit_true() -> Seq<char> {
    seq!['T', 'r', 'u', 'e']
}

/// "False"
pub open spec fn lit_false() -> Seq<char> {
    seq!['F', 'a', 'l', 's', 'e']
}

/// "Never"
pub open spec fn lit_never() -> Seq<char> {
    seq!['N', 'e', 'v', 'e', 'r']
}

/// "Refinement"
pub open spec fn lit_refinement() -> Seq<char> {
    seq!['R', 'e', 'f', 'i', 'n', 'e', 'm', 'e', 'n', 't']
}

/// "Quantified"
pub open spec fn lit_quantified() -> Seq<char> {
    seq!['Q', 'u', 'a', 'n', 't', 'i', 'f', 'i', 'e', 'd']
}

/// "And"
pub open spec fn lit_and() -> Seq<char> {
    seq!['A', 'n', 'd']
}

/// "Or"
pub open spec fn lit_or() -> Seq<char> {
    seq!['O', 'r']
}

/// ", "
pub open spec fn lit_sep() -> Seq<char> {
    seq![',', ' ']
}

/// ": "
pub open spec fn lit_colon() -> Seq<char> {
    seq![':', ' ']
}

/// The compact rendering of a type: its head name, or the keyword of
/// its shape.
pub open spec fn render_ty(t: TyView) -> Seq<char> {
    match t {
        TyView::Mono(n) => n,
        TyView::Poly(n, _) => n,
        TyView::Refinement(_, _, _) => lit_refinement(),
        TyView::Quantified(_, _) => lit_quantified(),
        TyView::And(_, _) => lit_and(),
        TyView::Or(_, _) => lit_or(),
        TyView::Never => lit_never(),
    }
}

/// The rendering of a value.
pub open spec fn render_v(v: VView) -> Seq<char>
    decreases v,
{
    match v {
        VView::Nat(n) => dec_digits(n),
        VView::Str(s) => seq!['"'] + s + seq!['"'],
        VView::Bool(b) => if b {
            lit_true()
        } else {
            lit_false()
        },
        VView::Array(vs) => seq!['['] + render_list(vs) + seq![']'],
        VView::Dict(kvs) => seq!['{'] + render_pairs(kvs) + seq!['}'],
        VView::DataClass(n, _) => n,
        VView::Subr(SubrView::Builtin(n)) => n,
        VView::Subr(SubrView::UserDefined(n)) => n,
        VView::Type(TypeObjView::Builtin(t)) => render_ty(t),
        VView::Type(TypeObjView::Generated(g)) => render_ty(g.t),
    }
}

/// The comma-separated rendering of a value sequence.
pub open spec fn render_list(vs: Seq<VView>) -> Seq<char>
    decreases vs,
{
    if vs.len() == 0 {
        Seq::empty()
    } else if vs.len() == 1 {
        render_v(vs.last())
    } else {
        render_list(vs.drop_last()) + lit_sep() + render_v(vs.last())
    }
}

/// The comma-separated rendering of key-value pairs.
pub open spec fn render_pairs(kvs: Seq<(VView, VView)>) -> Seq<char>
    decreases kvs,
{
    if kvs.len() == 0 {
        Seq::empty()
    } else if kvs.len() == 1 {
        render_v(kvs.last().0) + lit_colon() + render_v(kvs.last().1)
    } else {
        render_pairs(kvs.drop_last()) + lit_sep() + render_v(kvs.last().0) + lit_colon()
            + render_v(kvs.last().1)
    }
}

/// Renders a type compactly.
pub fn render_type(t: &crate::ty::Ty) -> (r: String)
    ensures
        r@ == render_ty(t.deep()),
{
    proof {
        reveal_strlit("Refinement");
        reveal_strlit("Quantified");
        reveal_strlit("And");
        reveal_strlit("Or");
        reveal_strlit("Never");
        assert(("Refinement")@ =~= lit_refinement());
        assert(("Quantified")@ =~= lit_quantified());
        assert(("And")@ =~= lit_and());
        assert(("Or")@ =~= lit_or());
        assert(("Never")@ =~= lit_never());
    }
    match t {
        crate::ty::Ty::Mono(n) => n.clone(),
        crate::ty::Ty::Poly(n, _) => n.clone(),
        crate::ty::Ty::Refinement(_, _, _) => "Refinement".to_owned(),
        crate::ty::Ty::Quantified(_, _) => "Quantified".to_owned(),
        crate::ty::Ty::And(_, _) => "And".to_owned(),
        crate::ty::Ty::Or(_, _) => "Or".to_owned(),
        crate::ty::Ty::Never => "Never".to_owned(),
    }
}

/// Renders a value.
#[verifier::loop_isolation(false)]
pub fn render_value(v: &ValueObj) -> (r: String)
    ensures
        r@ == render_v(v.deep()),
    decreases v,
{
    match v {
        ValueObj::Nat(n) => crate::error::nat_to_string(*n),
        ValueObj::Str(s) => {
            proof {
                reveal_strlit("\"");
            }
            let mut out = ("\"").to_owned();
            out.append(s.as_str());
            out.append("\"");
            proof {
                assert(out@ =~= seq!['"'] + s@ + seq!['"']);
            }
            out
        },
        ValueObj::Bool(b) => {
            proof {
                reveal_strlit("True");
                reveal_strlit("False");
                assert(("True")@ =~= lit_true());
                assert(("False")@ =~= lit_false());
            }
            if *b {
                "True".to_owned()
            } else {
                "False".to_owned()
            }
        },
        ValueObj::Array(vs) => {
            proof {
                reveal_strlit("[");
                reveal_strlit("]");
                lemma_deep_v_seq(vs@);
            }
            let ghost vsv = deep_v_seq(vs@);
            let mut out = ("[").to_owned();
            let mut i: usize = 0;
            while i < vs.len()
                invariant
                    i <= vs@.len(),
                    vsv == deep_v_seq(vs@),
                    vsv.len() == vs@.len(),
                    forall|j: int| 0 <= j < vs@.len() ==> vsv[j] == (#[trigger] vs@[j]).deep(),
                    out@ == seq!['['] + render_list(vsv.take(i as int)),
                decreases vs@.len() - i,
            {
                if i > 0 {
                    proof {
                        reveal_strlit(", ");
                    }
                    out.append(", ");
                    proof {
                        assert((", ")@ =~= lit_sep());
                    }
                }
                let piece = render_value(&vs[i]);
                out.append(piece.as_str());
                proof {
                    assert(vsv.take(i + 1 as int).drop_last() =~= vsv.take(i as int));
                    assert(vsv.take(i + 1 as int).last() == vsv[i as int]);
                    assert(out@ =~= seq!['['] + render_list(vsv.take(i + 1 as int)));
                }
                i = i + 1;
            }
            out.append("]");
            proof {
                assert(vsv.take(vsv.len() as int) =~= vsv);
                assert(out@ =~= seq!['['] + render_list(vsv) + seq![']']);
            }
            out
        },
        ValueObj::Dict(kvs) => {
            proof {
                reveal_strlit("{");
                reveal_strlit("}");
                lemma_deep_vpair_seq(kvs@);
            }
            let ghost kvv = deep_vpair_seq(kvs@);
            let mut out = ("{").to_owned();
            let mut i: usize = 0;
            while i < kvs.len()
                invariant
                    i <= kvs@.len(),
                    kvv == deep_vpair_seq(kvs@),
                    kvv.len() == kvs@.len(),
                    forall|j: int|
                        0 <= j < kvs@.len() ==> kvv[j] == ((#[trigger] kvs@[j]).0.deep(),
                        kvs@[j].1.deep()),
                    out@ == seq!['{'] + render_pairs(kvv.take(i as int)),
                decreases kvs@.len() - i,
            {
                if i > 0 {
                    proof {
                        reveal_strlit(", ");
                    }
                    out.append(", ");
                    proof {
                        assert((", ")@ =~= lit_sep());
                    }
                }
                let kp = render_value(&kvs[i].0);
                out.append(kp.as_str());
                proof {
                    reveal_strlit(": ");
                }
                out.append(": ");
                let vp = render_value(&kvs[i].1);
                out.append(vp.as_str());
                proof {
                    assert((": ")@ =~= lit_colon());
                    assert(kvv.take(i + 1 as int).drop_last() =~= kvv.take(i as int));
                    assert(kvv.take(i + 1 as int).last() == kvv[i as int]);
                    assert(out@ =~= seq!['{'] + render_pairs(kvv.take(i + 1 as int)));
                }
                i = i + 1;
            }
            out.append("}");
            proof {
                assert(kvv.take(kvv.len() as int) =~= kvv);
                assert(out@ =~= seq!['{'] + render_pairs(kvv) + seq!['}']);
            }
            out
        },
        ValueObj::DataClass { name, fields: _ } => name.clone(),
        ValueObj::Subr(crate::value::ConstSubr::Builtin(n)) => n.clone(),
        ValueObj::Subr(crate::value::ConstSubr::UserDefined(n)) => n.clone(),
        ValueObj::Type(crate::value::TypeObj::Builtin(t)) => render_type(t),
        ValueObj::Type(crate::value::TypeObj::Generated(g)) => render_type(&g.t),
    }
}

} // verus!
