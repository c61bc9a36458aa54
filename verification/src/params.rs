//! The order in which parameters are signed.

use crate::form::{params_view, Param};
use crate::text::{
    bytes_le, lemma_lex_le_antisymmetric, lemma_lex_le_reflexive, lemma_lex_le_total,
    lemma_lex_le_transitive, lemma_utf8_injective, lex_le, str_eq,
};
use vstd::prelude::*;
use vstd::relations::{sorted_by, total_ordering};
use vstd::seq_lib::*;
use vstd::utf8::encode_utf8;

verus! {

/// Parameters go by name, in the byte order of the names' UTF-8 form; two
/// with the same name go by value, in the same way.
pub open spec fn param_le(p: Param, q: Param) -> bool {
    if p.0 == q.0 {
        lex_le(encode_utf8(p.1), encode_utf8(q.1))
    } else {
        lex_le(encode_utf8(p.0), encode_utf8(q.0))
    }
}

/// [`param_le`] as a relation.
pub open spec fn param_order() -> spec_fn(Param, Param) -> bool {
    |p: Param, q: Param| param_le(p, q)
}

/// The parameters in signing order.
pub open spec fn canonical(params: Seq<Param>) -> Seq<Param> {
    params.sort_by(param_order())
}

/// The signing order is a total order: any two parameters compare, and
/// only a parameter and itself compare both ways.
pub proof fn lemma_param_order_total()
    ensures
        total_ordering(param_order()),
{
    let leq = param_order();
    assert forall|p: Param| #[trigger] leq(p, p) by {
        lemma_lex_le_reflexive(encode_utf8(p.1));
    }
    assert forall|p: Param, q: Param| #[trigger] leq(p, q) && #[trigger] leq(q, p) implies p
        == q by {
        if p.0 == q.0 {
            lemma_lex_le_antisymmetric(encode_utf8(p.1), encode_utf8(q.1));
            lemma_utf8_injective(p.1, q.1);
        } else {
            lemma_lex_le_antisymmetric(encode_utf8(p.0), encode_utf8(q.0));
            lemma_utf8_injective(p.0, q.0);
        }
    }
    assert forall|p: Param, q: Param, r: Param| #[trigger] leq(p, q) && #[trigger] leq(
        q,
        r,
    ) implies leq(p, r) by {
        lemma_param_le_transitive(p, q, r);
    }
    assert forall|p: Param, q: Param| #[trigger] leq(p, q) || #[trigger] leq(q, p) by {
        lemma_param_le_total(p, q);
    }
}

pub proof fn lemma_param_le_transitive(p: Param, q: Param, r: Param)
    requires
        param_le(p, q),
        param_le(q, r),
    ensures
        param_le(p, r),
{
    let (kp, kq, kr) = (encode_utf8(p.0), encode_utf8(q.0), encode_utf8(r.0));
    if p.0 == q.0 && q.0 == r.0 {
        lemma_lex_le_transitive(encode_utf8(p.1), encode_utf8(q.1), encode_utf8(r.1));
    } else if p.0 == q.0 || q.0 == r.0 {
    } else {
        lemma_lex_le_transitive(kp, kq, kr);
        if p.0 == r.0 {
            lemma_lex_le_antisymmetric(kp, kq);
            lemma_utf8_injective(p.0, q.0);
        }
    }
}

pub proof fn lemma_param_le_total(p: Param, q: Param)
    ensures
        param_le(p, q) || param_le(q, p),
{
    if p.0 == q.0 {
        lemma_lex_le_total(encode_utf8(p.1), encode_utf8(q.1));
    } else {
        lemma_lex_le_total(encode_utf8(p.0), encode_utf8(q.0));
    }
}

/// The signing order of a sequence is the one arrangement of its
/// parameters that is sorted.
pub proof fn lemma_canonical_is_sorted_arrangement(params: Seq<Param>, sorted: Seq<Param>)
    requires
        sorted_by(sorted, param_order()),
        sorted.to_multiset() == params.to_multiset(),
    ensures
        sorted == canonical(params),
{
    lemma_param_order_total();
    params.lemma_sort_by_ensures(param_order());
    lemma_sorted_unique(sorted, canonical(params), param_order());
}

/// The signing order keeps every parameter, as often as it occurs, and is
/// sorted.
pub proof fn lemma_canonical_properties(params: Seq<Param>)
    ensures
        sorted_by(canonical(params), param_order()),
        canonical(params).to_multiset() == params.to_multiset(),
        canonical(params).len() == params.len(),
{
    lemma_param_order_total();
    params.lemma_sort_by_ensures(param_order());
    params.to_multiset_ensures();
    canonical(params).to_multiset_ensures();
}

/// Two sequences that hold the same parameters equally often have the same
/// signing order.
pub proof fn lemma_canonical_ignores_order(a: Seq<Param>, b: Seq<Param>)
    requires
        a.to_multiset() == b.to_multiset(),
    ensures
        canonical(a) == canonical(b),
{
    lemma_canonical_properties(a);
    lemma_canonical_is_sorted_arrangement(b, canonical(a));
}

/// Whether the first parameter comes no later than the second.
pub fn param_le_exec(p: &(String, String), q: &(String, String)) -> (res: bool)
    ensures
        res == param_le((p.0@, p.1@), (q.0@, q.1@)),
{
    if str_eq(p.0.as_str(), q.0.as_str()) {
        bytes_le(p.1.as_str().as_bytes(), q.1.as_str().as_bytes())
    } else {
        bytes_le(p.0.as_str().as_bytes(), q.0.as_str().as_bytes())
    }
}

/// Puts parameters in signing order.
pub fn sort_params(params: &Vec<(String, String)>) -> (res: Vec<(String, String)>)
    ensures
        params_view(res@) == canonical(params_view(params@)),
{
    let mut sorted: Vec<(String, String)> = Vec::new();
    let mut i: usize = 0;
    assert(params_view(sorted@) =~= params_view(params@).take(0));
    while i < params.len()
        invariant
            i <= params.len(),
            sorted_by(params_view(sorted@), param_order()),
            params_view(sorted@).to_multiset() == params_view(params@).take(i as int).to_multiset(),
        decreases params.len() - i,
    {
        let item = (params[i].0.clone(), params[i].1.clone());
        let ghost x: Param = (item.0@, item.1@);
        let ghost before = params_view(sorted@);
        let mut pos: usize = 0;
        while pos < sorted.len() && param_le_exec(&sorted[pos], &item)
            invariant
                pos <= sorted.len(),
                before == params_view(sorted@),
                x == (item.0@, item.1@),
                forall|k: int| 0 <= k < pos ==> param_le(#[trigger] before[k], x),
            decreases sorted.len() - pos,
        {
            pos += 1;
        }
        proof {
            assert forall|k: int| pos <= k < before.len() implies param_le(
                x,
                #[trigger] before[k],
            ) by {
                lemma_param_le_total(before[pos as int], x);
                if k > pos {
                    assert(param_order()(before[pos as int], before[k]));
                    lemma_param_le_transitive(x, before[pos as int], before[k]);
                }
            }
        }
        sorted.insert(pos, item);
        proof {
            let after = params_view(sorted@);
            assert(after =~= before.insert(pos as int, x));
            assert forall|a: int, b: int| 0 <= a < b < after.len() implies #[trigger] param_order()(
                after[a],
                after[b],
            ) by {
                if b < pos {
                    assert(param_order()(before[a], before[b]));
                } else if b == pos {
                } else if a < pos {
                    assert(param_order()(before[a], before[b - 1]));
                } else if a == pos {
                } else {
                    assert(param_order()(before[a - 1], before[b - 1]));
                }
            }
            to_multiset_insert(before, pos as int, x);
            let all = params_view(params@);
            assert(all.take(i + 1) =~= all.take(i as int).push(x));
            to_multiset_build(all.take(i as int), x);
        }
        i += 1;
    }
    proof {
        assert(params_view(params@).take(i as int) =~= params_view(params@));
        lemma_canonical_is_sorted_arrangement(params_view(params@), params_view(sorted@));
    }
    sorted
}

} // verus!
