//! What holds of signing on every input.

use crate::digest::{base64, base64_char};
use crate::form::{body_params, is_unreserved, percent_byte, percent_bytes, Param};
use crate::oauth1::{first_value, is_free, optional, tag_text, Oauth1View};
use crate::params::{canonical, lemma_canonical_ignores_order, lemma_canonical_properties};
use crate::secret::SecretView;
use vstd::prelude::*;
use vstd::seq_lib::{lemma_multiset_commutative, to_multiset_contains};

verus! {

/// Signing is a function of the credential, the nonce, the timestamp, the
/// method, the URL and the body: two requests signed from the same of each
/// carry the same header, letter for letter.
pub proof fn lemma_signing_is_deterministic(
    secret: SecretView,
    nonce: Seq<char>,
    timestamp: Seq<char>,
    method: Seq<char>,
    uri: Seq<char>,
    query: Seq<char>,
    first: Oauth1View,
    second: Oauth1View,
)
    requires
        first == Oauth1View::initial(secret, nonce, timestamp).after_signing(
            method,
            uri,
            body_params(query),
        ),
        second == Oauth1View::initial(secret, nonce, timestamp).after_signing(
            method,
            uri,
            body_params(query),
        ),
    ensures
        first.header() == second.header(),
{
}

/// Every parameter that the caller supplies is signed, whatever its name,
/// and as often as the caller supplies it.
pub proof fn lemma_caller_params_are_signed(request: Oauth1View, body: Seq<Param>, p: Param)
    ensures
        canonical(request.signing_set(body)).to_multiset().count(p) >= body.to_multiset().count(p),
        body.contains(p) ==> canonical(request.signing_set(body)).contains(p),
{
    let own = request.own_params().filter(is_free(body));
    lemma_canonical_properties(request.signing_set(body));
    lemma_multiset_commutative(body, own);
    to_multiset_contains(body, p);
    to_multiset_contains(canonical(request.signing_set(body)), p);
}

/// The order in which the caller supplies the parameters does not matter:
/// two bodies that hold the same parameters equally often, and give each
/// name its first value alike, are signed alike.
pub proof fn lemma_body_order_is_irrelevant(
    request: Oauth1View,
    method: Seq<char>,
    uri: Seq<char>,
    a: Seq<Param>,
    b: Seq<Param>,
)
    requires
        a.to_multiset() == b.to_multiset(),
        forall|name: Seq<char>| first_value(a, name) == first_value(b, name),
    ensures
        request.after_signing(method, uri, a) == request.after_signing(method, uri, b),
{
    assert(is_free(a) =~= is_free(b));
    let own = request.own_params().filter(is_free(a));
    lemma_multiset_commutative(a, own);
    lemma_multiset_commutative(b, own);
    lemma_canonical_ignores_order(request.signing_set(a), request.signing_set(b));
}

/// With no parameters from the caller, the signer's own are what is
/// signed.
pub proof fn lemma_empty_body_signs_own_params(request: Oauth1View)
    ensures
        request.signing_set(Seq::empty()) == request.own_params(),
        request.adopt(Seq::empty()) == request,
{
    let own = request.own_params();
    let free = is_free(Seq::empty());
    lemma_filter_all(own, free);
    assert(Seq::<Param>::empty() + own =~= own);
}

/// A filter that every element passes keeps the sequence as it is.
pub proof fn lemma_filter_all<A>(s: Seq<A>, pred: spec_fn(A) -> bool)
    requires
        forall|i: int| 0 <= i < s.len() ==> pred(#[trigger] s[i]),
    ensures
        s.filter(pred) == s,
    decreases s.len(),
{
    reveal(Seq::filter);
    if s.len() > 0 {
        lemma_filter_all(s.drop_last(), pred);
        assert(s.drop_last().push(s.last()) =~= s);
    }
}

/// Two filters that agree on every element of a sequence keep the same of
/// it.
pub proof fn lemma_filter_agree<A>(s: Seq<A>, f: spec_fn(A) -> bool, g: spec_fn(A) -> bool)
    requires
        forall|i: int| 0 <= i < s.len() ==> f(#[trigger] s[i]) == g(s[i]),
    ensures
        s.filter(f) == s.filter(g),
    decreases s.len(),
{
    reveal(Seq::filter);
    if s.len() > 0 {
        lemma_filter_agree(s.drop_last(), f, g);
    }
}

/// What a name's first value is once a parameter has been added at the
/// end: as before where the name had one, and else the new parameter's
/// value where it bears the name.
pub proof fn lemma_first_value_push(params: Seq<Param>, p: Param, name: Seq<char>)
    ensures
        first_value(params.push(p), name) == if first_value(params, name) is Some {
            first_value(params, name)
        } else if p.0 == name {
            Some(p.1)
        } else {
            None
        },
    decreases params.len(),
{
    if params.len() == 0 {
        assert(params.push(p).drop_first() =~= Seq::<Param>::empty());
    } else {
        assert(params.push(p).drop_first() =~= params.drop_first().push(p));
        if params[0].0 != name {
            lemma_first_value_push(params.drop_first(), p, name);
        }
    }
}

/// A character of a percent-encoded text: a percent sign, or one of the
/// ASCII letters, digits and `-._~`.
pub open spec fn is_percent_char(c: char) -> bool {
    c == '%' || (c as u32 <= 0x7f && is_unreserved(c as u8))
}

/// A percent-encoded byte string holds percent signs, ASCII letters,
/// digits and `-._~`, and nothing else.
pub proof fn lemma_percent_bytes_chars(bytes: Seq<u8>)
    ensures
        forall|i: int|
            0 <= i < percent_bytes(bytes).len() ==> is_percent_char(
                #[trigger] percent_bytes(bytes)[i],
            ),
    decreases bytes.len(),
{
    if bytes.len() > 0 {
        lemma_percent_bytes_chars(bytes.drop_last());
        let before = percent_bytes(bytes.drop_last());
        let last = percent_byte(bytes.last());
        assert forall|i: int| 0 <= i < percent_bytes(bytes).len() implies is_percent_char(
            #[trigger] percent_bytes(bytes)[i],
        ) by {
            if i >= before.len() {
                assert(percent_bytes(bytes)[i] == last[i - before.len()]);
            } else {
                assert(percent_bytes(bytes)[i] == before[i]);
            }
        }
    }
}

/// A value below 64 is written as a letter, a digit, `+` or `/`.
pub proof fn lemma_base64_char(n: int)
    requires
        0 <= n < 64,
    ensures
        base64_char(n) != '=',
        base64_char(n) as u32 <= 0x7f,
{
}

/// The base64 text of a tag of 20 bytes has 28 characters, of which the
/// last, and no other, is `=`.
pub proof fn lemma_base64_of_tag(tag: Seq<u8>)
    requires
        tag.len() == 20,
    ensures
        base64(tag).len() == 28,
        base64(tag)[27] == '=',
        forall|i: int| 0 <= i < 27 ==> base64(tag)[i] != '=',
{
    let t1 = tag.skip(3);
    let t2 = t1.skip(3);
    let t3 = t2.skip(3);
    let t4 = t3.skip(3);
    let t5 = t4.skip(3);
    let t6 = t5.skip(3);
    lemma_base64_group(t6);
    lemma_base64_group(t5);
    lemma_base64_group(t4);
    lemma_base64_group(t3);
    lemma_base64_group(t2);
    lemma_base64_group(t1);
    lemma_base64_group(tag);
}

/// The first characters of a base64 text are none of them `=`: all four
/// where three bytes or more are written, and else as many as there are
/// bytes, and one more.
proof fn lemma_base64_group(bytes: Seq<u8>)
    ensures
        bytes.len() >= 3 ==> base64(bytes).len() == 4 + base64(bytes.skip(3)).len(),
        bytes.len() >= 3 ==> forall|i: int|
            4 <= i < base64(bytes).len() ==> base64(bytes)[i] == base64(bytes.skip(3))[i - 4],
        bytes.len() >= 3 ==> forall|i: int| 0 <= i < 4 ==> base64(bytes)[i] != '=',
        bytes.len() == 2 ==> base64(bytes).len() == 4 && base64(bytes)[3] == '=' && forall|i: int|
            0 <= i < 3 ==> base64(bytes)[i] != '=',
{
    if bytes.len() >= 2 {
        let (b0, b1) = (bytes[0] as int, bytes[1] as int);
        lemma_base64_char(b0 / 4);
        lemma_base64_char(b0 % 4 * 16 + b1 / 16);
        lemma_base64_char(b1 % 16 * 4);
        if bytes.len() >= 3 {
            let b2 = bytes[2] as int;
            lemma_base64_char(b1 % 16 * 4 + b2 / 64);
            lemma_base64_char(b2 % 64);
        }
    }
}

/// The signature of a tag of 20 bytes, as it stands in the header, holds
/// no `+`, `/` or `=` as such: it is the percent-encoding of 28 base64
/// characters, of which the last, and no other, is `=`.
pub proof fn lemma_signature_shape(tag: Seq<u8>)
    requires
        tag.len() == 20,
    ensures
        base64(tag).len() == 28,
        base64(tag)[27] == '=',
        forall|i: int| 0 <= i < 27 ==> base64(tag)[i] != '=',
        forall|i: int|
            0 <= i < tag_text(tag).len() ==> {
                let c = #[trigger] tag_text(tag)[i];
                c != '+' && c != '/' && c != '='
            },
{
    lemma_base64_of_tag(tag);
    lemma_percent_bytes_chars(vstd::utf8::encode_utf8(base64(tag)));
    assert forall|i: int| 0 <= i < tag_text(tag).len() implies {
        let c = #[trigger] tag_text(tag)[i];
        c != '+' && c != '/' && c != '='
    } by {
        assert(is_percent_char(tag_text(tag)[i]));
    }
}

/// A filter that no element passes keeps nothing.
pub proof fn lemma_filter_none<A>(s: Seq<A>, pred: spec_fn(A) -> bool)
    requires
        forall|i: int| 0 <= i < s.len() ==> !pred(#[trigger] s[i]),
    ensures
        s.filter(pred) == Seq::<A>::empty(),
    decreases s.len(),
{
    reveal(Seq::filter);
    if s.len() > 0 {
        lemma_filter_none(s.drop_last(), pred);
    }
}

/// The names of the signer's own parameters differ from one another.
pub proof fn lemma_own_names_differ()
    ensures
        "oauth_callback"@ != "oauth_consumer_key"@,
        "oauth_callback"@ != "oauth_nonce"@,
        "oauth_callback"@ != "oauth_signature_method"@,
        "oauth_callback"@ != "oauth_timestamp"@,
        "oauth_callback"@ != "oauth_token"@,
        "oauth_callback"@ != "oauth_verifier"@,
        "oauth_callback"@ != "oauth_version"@,
        "oauth_verifier"@ != "oauth_consumer_key"@,
        "oauth_verifier"@ != "oauth_nonce"@,
        "oauth_verifier"@ != "oauth_signature_method"@,
        "oauth_verifier"@ != "oauth_timestamp"@,
        "oauth_verifier"@ != "oauth_token"@,
        "oauth_verifier"@ != "oauth_version"@,
{
    reveal_strlit("oauth_callback");
    reveal_strlit("oauth_consumer_key");
    reveal_strlit("oauth_nonce");
    reveal_strlit("oauth_signature_method");
    reveal_strlit("oauth_timestamp");
    reveal_strlit("oauth_token");
    reveal_strlit("oauth_verifier");
    reveal_strlit("oauth_version");
    assert("oauth_callback"@.len() == 14 && "oauth_verifier"@.len() == 14);
    assert("oauth_consumer_key"@.len() == 18);
    assert("oauth_nonce"@.len() == 11 && "oauth_token"@.len() == 11);
    assert("oauth_signature_method"@.len() == 22);
    assert("oauth_timestamp"@.len() == 15);
    assert("oauth_version"@.len() == 13);
    assert("oauth_callback"@[6] != "oauth_verifier"@[6]);
}

/// Where the caller's parameters leave a name free, it comes to the same
/// signing order whether the signer brings a parameter of that name
/// itself or the caller adds it to the others.
proof fn lemma_promotion(
    body: Seq<Param>,
    p: Param,
    earlier: Option<Seq<char>>,
    left: Seq<Param>,
    right: Seq<Param>,
)
    requires
        first_value(body, p.0) is None,
        forall|i: int| 0 <= i < left.len() ==> (#[trigger] left[i]).0 != p.0,
        forall|i: int| 0 <= i < right.len() ==> (#[trigger] right[i]).0 != p.0,
    ensures
        canonical(body + (left + seq![p] + right).filter(is_free(body))) == canonical(
            body.push(p) + (left + optional(p.0, earlier) + right).filter(is_free(body.push(p))),
        ),
{
    let with = body.push(p);
    let (f, g) = (is_free(body), is_free(with));
    assert forall|i: int| 0 <= i < left.len() implies f(#[trigger] left[i]) == g(left[i]) by {
        lemma_first_value_push(body, p, left[i].0);
    }
    assert forall|i: int| 0 <= i < right.len() implies f(#[trigger] right[i]) == g(right[i]) by {
        lemma_first_value_push(body, p, right[i].0);
    }
    lemma_filter_agree(left, f, g);
    lemma_filter_agree(right, f, g);
    lemma_filter_all(seq![p], f);
    lemma_first_value_push(body, p, p.0);
    lemma_filter_none(optional(p.0, earlier), g);
    Seq::filter_distributes_over_add(left, seq![p], f);
    Seq::filter_distributes_over_add(left + seq![p], right, f);
    Seq::filter_distributes_over_add(left, optional(p.0, earlier), g);
    Seq::filter_distributes_over_add(left + optional(p.0, earlier), right, g);
    let (kept_left, kept_right) = (left.filter(f), right.filter(f));
    let a = body + (kept_left + seq![p] + kept_right);
    let b = with + (kept_left + Seq::<Param>::empty() + kept_right);
    assert(a.to_multiset() =~= b.to_multiset()) by {
        lemma_multiset_commutative(body, kept_left + seq![p] + kept_right);
        lemma_multiset_commutative(kept_left + seq![p], kept_right);
        lemma_multiset_commutative(kept_left, seq![p]);
        lemma_multiset_commutative(with, kept_left + Seq::<Param>::empty() + kept_right);
        lemma_multiset_commutative(kept_left + Seq::<Param>::empty(), kept_right);
        lemma_multiset_commutative(body, seq![p]);
        assert(with =~= body + seq![p]);
        assert(kept_left + Seq::<Param>::empty() =~= kept_left);
    }
    lemma_canonical_ignores_order(a, b);
}

/// A verifier is signed alike whether it is set on the request or the
/// caller supplies it among the parameters: where the caller's other
/// parameters hold no `oauth_verifier`, signing makes the same of the two
/// requests, and so they carry the same header.
pub proof fn lemma_verifier_promotion(
    request: Oauth1View,
    method: Seq<char>,
    uri: Seq<char>,
    body: Seq<Param>,
    verifier: Seq<char>,
)
    requires
        first_value(body, "oauth_verifier"@) is None,
    ensures
        ({
            let set = Oauth1View { verifier: Some(verifier), ..request };
            let supplied = body.push(("oauth_verifier"@, verifier));
            &&& set.after_signing(method, uri, body) == request.after_signing(method, uri, supplied)
            &&& set.after_signing(method, uri, body).header() == request.after_signing(
                method,
                uri,
                supplied,
            ).header()
        }),
{
    let p = ("oauth_verifier"@, verifier);
    let set = Oauth1View { verifier: Some(verifier), ..request };
    let left = optional("oauth_callback"@, request.callback) + seq![
        ("oauth_consumer_key"@, request.consumer_key),
        ("oauth_nonce"@, request.nonce),
        ("oauth_signature_method"@, request.signature_method),
        ("oauth_timestamp"@, request.timestamp),
    ] + optional("oauth_token"@, request.token);
    let right = seq![("oauth_version"@, request.version)];
    lemma_own_names_differ();
    assert(set.own_params() =~= left + seq![p] + right);
    assert(request.own_params() =~= left + optional(p.0, request.verifier) + right);
    lemma_promotion(body, p, request.verifier, left, right);
    lemma_adopt_push(request, set, body, p);
}

/// A callback is signed alike whether it is set on the request or the
/// caller supplies it among the parameters: where the caller's other
/// parameters hold no `oauth_callback`, signing makes the same of the two
/// requests, and so they carry the same header.
pub proof fn lemma_callback_promotion(
    request: Oauth1View,
    method: Seq<char>,
    uri: Seq<char>,
    body: Seq<Param>,
    callback: Seq<char>,
)
    requires
        first_value(body, "oauth_callback"@) is None,
    ensures
        ({
            let set = Oauth1View { callback: Some(callback), ..request };
            let supplied = body.push(("oauth_callback"@, callback));
            &&& set.after_signing(method, uri, body) == request.after_signing(method, uri, supplied)
            &&& set.after_signing(method, uri, body).header() == request.after_signing(
                method,
                uri,
                supplied,
            ).header()
        }),
{
    let p = ("oauth_callback"@, callback);
    let set = Oauth1View { callback: Some(callback), ..request };
    let left = Seq::<Param>::empty();
    let right = seq![
        ("oauth_consumer_key"@, request.consumer_key),
        ("oauth_nonce"@, request.nonce),
        ("oauth_signature_method"@, request.signature_method),
        ("oauth_timestamp"@, request.timestamp),
    ] + optional("oauth_token"@, request.token) + optional("oauth_verifier"@, request.verifier)
        + seq![("oauth_version"@, request.version)];
    lemma_own_names_differ();
    assert(set.own_params() =~= left + seq![p] + right);
    assert(request.own_params() =~= left + optional(p.0, request.callback) + right);
    lemma_promotion(body, p, request.callback, left, right);
    lemma_adopt_push(request, set, body, p);
}

/// Taking the caller's parameters in comes to the same whether a free
/// name's value was set on the request or is supplied last among them.
proof fn lemma_adopt_push(request: Oauth1View, set: Oauth1View, body: Seq<Param>, p: Param)
    requires
        first_value(body, p.0) is None,
        p.0 == "oauth_verifier"@ || p.0 == "oauth_callback"@,
        p.0 == "oauth_verifier"@ ==> set == (Oauth1View { verifier: Some(p.1), ..request }),
        p.0 == "oauth_callback"@ ==> set == (Oauth1View { callback: Some(p.1), ..request }),
    ensures
        set.adopt(body) == request.adopt(body.push(p)),
{
    lemma_own_names_differ();
    lemma_first_value_push(body, p, "oauth_consumer_key"@);
    lemma_first_value_push(body, p, "oauth_token"@);
    lemma_first_value_push(body, p, "oauth_signature_method"@);
    lemma_first_value_push(body, p, "oauth_timestamp"@);
    lemma_first_value_push(body, p, "oauth_nonce"@);
    lemma_first_value_push(body, p, "oauth_version"@);
    lemma_first_value_push(body, p, "oauth_callback"@);
    lemma_first_value_push(body, p, "oauth_verifier"@);
}

} // verus!
