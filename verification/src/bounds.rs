//! How long a request may be and still be signed.

use crate::form::{
    encode_param, encode_params, escape, escape_byte, escape_bytes, percent, percent_byte,
    percent_bytes, Param,
};
use crate::oauth1::{base_string, is_free, Oauth1View};
use crate::params::{canonical, lemma_canonical_properties};
use crate::text::ascii_upper;
use vstd::prelude::*;
use vstd::seq_lib::{commutative_foldl, lemma_fold_left_permutation};
use vstd::utf8::{encode_utf8, is_ascii_chars, is_ascii_chars_encode_utf8};

verus! {

/// No less than the length of a parameter in form encoding, with the
/// separator before it: three characters for each byte of its name and
/// its value, and two more.
pub open spec fn param_weight(p: Param) -> nat {
    3 * (encode_utf8(p.0).len() + encode_utf8(p.1).len()) + 2
}

/// Adds the weight of a parameter to a sum.
pub open spec fn add_weight() -> spec_fn(nat, Param) -> nat {
    |sum: nat, p: Param| sum + param_weight(p)
}

/// The weights of all the parameters together.
pub open spec fn weight(params: Seq<Param>) -> nat {
    params.fold_left(0nat, add_weight())
}

/// No less than the length of the signature base string of a request, and
/// of what HMAC-SHA1 puts before it, in bytes.
pub open spec fn request_bound(
    request: Oauth1View,
    method: Seq<char>,
    uri: Seq<char>,
    body: Seq<Param>,
) -> nat {
    4 * method.len() + 3 * encode_utf8(uri).len() + 3 * (weight(body) + weight(
        request.own_params(),
    )) + 66
}

/// A request is signed unless it is enormous: it is signable wherever its
/// signing key has fewer than 2^61 bytes and its bound stays below 2^61.
pub proof fn lemma_short_requests_are_signable(
    request: Oauth1View,
    method: Seq<char>,
    uri: Seq<char>,
    body: Seq<Param>,
)
    requires
        encode_utf8(request.sign_key).len() < 0x2000_0000_0000_0000,
        request_bound(request, method, uri, body) < 0x2000_0000_0000_0000,
    ensures
        request.signable(method, uri, body),
        request.after_signing(method, uri, body) == request.signed(method, uri, body),
{
    let set = request.signing_set(body);
    let params = canonical(set);
    let kept = request.own_params().filter(is_free(body));
    lemma_weight_canonical(set);
    lemma_weight_add(body, kept);
    lemma_weight_filter(request.own_params(), is_free(body));
    lemma_encode_params_len(params);
    let query = encode_params(params);
    is_ascii_chars_encode_utf8(query);
    lemma_percent_len(query);
    lemma_percent_len(uri);
    let amp = seq!['&'];
    lemma_utf8_len(ascii_upper(method));
    assert(is_ascii_chars(amp));
    is_ascii_chars_encode_utf8(amp);
    is_ascii_chars_encode_utf8(percent(uri));
    is_ascii_chars_encode_utf8(percent(query));
    let a = ascii_upper(method) + amp;
    let b = a + percent(uri);
    let c = b + amp;
    lemma_utf8_concat(ascii_upper(method), amp);
    lemma_utf8_concat(a, percent(uri));
    lemma_utf8_concat(b, amp);
    lemma_utf8_concat(c, percent(query));
    assert(base_string(method, uri, params) == c + percent(query));
}

/// The UTF-8 form of two texts one after the other is the UTF-8 form of
/// the one followed by that of the other.
pub proof fn lemma_utf8_concat(a: Seq<char>, b: Seq<char>)
    ensures
        encode_utf8(a + b) == encode_utf8(a) + encode_utf8(b),
    decreases a.len(),
{
    if a.len() == 0 {
        assert(a + b =~= b);
        assert(encode_utf8(a) + encode_utf8(b) =~= encode_utf8(b));
    } else {
        assert((a + b).drop_first() =~= a.drop_first() + b);
        lemma_utf8_concat(a.drop_first(), b);
        assert(encode_utf8(a + b) =~= encode_utf8(a) + encode_utf8(b));
    }
}

/// A character takes at most four bytes in UTF-8.
pub proof fn lemma_utf8_len(text: Seq<char>)
    ensures
        encode_utf8(text).len() <= 4 * text.len(),
    decreases text.len(),
{
    if text.len() > 0 {
        lemma_utf8_len(text.drop_first());
    }
}

/// An escaped byte string is ASCII, and at most three times as long.
pub proof fn lemma_escape_bytes_len(bytes: Seq<u8>)
    ensures
        escape_bytes(bytes).len() <= 3 * bytes.len(),
        is_ascii_chars(escape_bytes(bytes)),
    decreases bytes.len(),
{
    if bytes.len() > 0 {
        lemma_escape_bytes_len(bytes.drop_last());
        let last = escape_byte(bytes.last());
        assert(is_ascii_chars(last));
        assert forall|i: int| 0 <= i < escape_bytes(bytes).len() implies '\0'
            <= #[trigger] escape_bytes(bytes)[i] <= '\u{7f}' by {
            let before = escape_bytes(bytes.drop_last());
            if i >= before.len() {
                assert(escape_bytes(bytes)[i] == last[i - before.len()]);
            } else {
                assert(escape_bytes(bytes)[i] == before[i]);
            }
        }
    }
}

/// A percent-encoded byte string is ASCII, and at most three times as
/// long.
pub proof fn lemma_percent_bytes_len(bytes: Seq<u8>)
    ensures
        percent_bytes(bytes).len() <= 3 * bytes.len(),
        is_ascii_chars(percent_bytes(bytes)),
    decreases bytes.len(),
{
    if bytes.len() > 0 {
        lemma_percent_bytes_len(bytes.drop_last());
        let last = percent_byte(bytes.last());
        assert(is_ascii_chars(last));
        assert forall|i: int| 0 <= i < percent_bytes(bytes).len() implies '\0'
            <= #[trigger] percent_bytes(bytes)[i] <= '\u{7f}' by {
            let before = percent_bytes(bytes.drop_last());
            if i >= before.len() {
                assert(percent_bytes(bytes)[i] == last[i - before.len()]);
            } else {
                assert(percent_bytes(bytes)[i] == before[i]);
            }
        }
    }
}

/// A percent-encoded text is ASCII, and at most three times as long as the
/// text is in UTF-8.
pub proof fn lemma_percent_len(text: Seq<char>)
    ensures
        percent(text).len() <= 3 * encode_utf8(text).len(),
        is_ascii_chars(percent(text)),
{
    lemma_percent_bytes_len(encode_utf8(text));
}

/// An escaped text is ASCII, and at most three times as long as the text
/// is in UTF-8.
pub proof fn lemma_escape_len(text: Seq<char>)
    ensures
        escape(text).len() <= 3 * encode_utf8(text).len(),
        is_ascii_chars(escape(text)),
{
    lemma_escape_bytes_len(encode_utf8(text));
}

/// The form encoding of parameters is ASCII and no longer than their
/// weight.
pub proof fn lemma_encode_params_len(params: Seq<Param>)
    ensures
        encode_params(params).len() <= weight(params),
        is_ascii_chars(encode_params(params)),
    decreases params.len(),
{
    if params.len() > 0 {
        let p = params.last();
        lemma_escape_len(p.0);
        lemma_escape_len(p.1);
        assert(is_ascii_chars(encode_param(p)));
        lemma_encode_params_len(params.drop_last());
        assert(weight(params) == weight(params.drop_last()) + param_weight(p));
        if params.len() == 1 {
            assert(params[0] == p);
        }
    }
}

/// The weight of two sequences one after the other is the sum of their
/// weights.
pub proof fn lemma_weight_add(a: Seq<Param>, b: Seq<Param>)
    ensures
        weight(a + b) == weight(a) + weight(b),
    decreases b.len(),
{
    if b.len() == 0 {
        assert(a + b =~= a);
    } else {
        assert((a + b).drop_last() =~= a + b.drop_last());
        lemma_weight_add(a, b.drop_last());
    }
}

/// What a filter keeps weighs no more than the whole.
pub proof fn lemma_weight_filter(params: Seq<Param>, pred: spec_fn(Param) -> bool)
    ensures
        weight(params.filter(pred)) <= weight(params),
    decreases params.len(),
{
    reveal(Seq::filter);
    if params.len() > 0 {
        lemma_weight_filter(params.drop_last(), pred);
        let kept = params.drop_last().filter(pred);
        if pred(params.last()) {
            assert(kept.push(params.last()).drop_last() =~= kept);
        }
    }
}

/// Putting parameters in signing order does not change their weight.
pub proof fn lemma_weight_canonical(params: Seq<Param>)
    ensures
        weight(canonical(params)) == weight(params),
{
    lemma_canonical_properties(params);
    assert(commutative_foldl(add_weight()));
    lemma_fold_left_permutation(canonical(params), params, add_weight(), 0nat);
}

} // verus!
