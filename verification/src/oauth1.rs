//! The signature engine: from a credential, a method, a URL and the request
//! parameters to the value of the `Authorization` header.

use crate::digest::{base64, base64_text, hmac_accepts, hmac_sha1, hmac_sha1_tag};
use crate::form::{
    body_params, encode_params, param, params_view, parse_body, percent, percent_text,
    serialize_params, Param,
};
use crate::params::{canonical, sort_params};
use crate::secret::{Secret, SecretView};
use crate::source::{clock_now, is_nonce, random_alphanumeric, since_unix_epoch, whole_seconds};
use crate::text::{ascii_upper, decimal, decimal_text, is_decimal, opt_view, starts_with, str_eq};
use vstd::prelude::*;
use vstd::utf8::encode_utf8;

verus! {

/// The OAuth parameters of one request, and the key to sign them with.
pub struct Oauth1 {
    oauth_consumer_key: String,
    oauth_token: Option<String>,
    oauth_signature_method: String,
    oauth_signature: String,
    oauth_timestamp: String,
    oauth_nonce: String,
    oauth_version: String,
    oauth_callback: Option<String>,
    oauth_verifier: Option<String>,
    realm: Option<String>,
    sign_key: String,
}

/// What an [`Oauth1`] holds, as plain text.
pub struct Oauth1View {
    pub consumer_key: Seq<char>,
    pub token: Option<Seq<char>>,
    pub signature_method: Seq<char>,
    pub signature: Seq<char>,
    pub timestamp: Seq<char>,
    pub nonce: Seq<char>,
    pub version: Seq<char>,
    pub callback: Option<Seq<char>>,
    pub verifier: Option<Seq<char>>,
    pub realm: Option<Seq<char>>,
    pub sign_key: Seq<char>,
}

/// The value of the first parameter with the given name, if there is one.
pub open spec fn first_value(params: Seq<Param>, name: Seq<char>) -> Option<Seq<char>>
    decreases params.len(),
{
    if params.len() == 0 {
        None
    } else if params[0].0 == name {
        Some(params[0].1)
    } else {
        first_value(params.drop_first(), name)
    }
}

/// A parameter that may be absent, as a sequence of one or none.
pub open spec fn optional(name: Seq<char>, value: Option<Seq<char>>) -> Seq<Param> {
    match value {
        Some(v) => seq![(name, v)],
        None => Seq::empty(),
    }
}

/// The first of the two that is there.
pub open spec fn or_else(first: Option<Seq<char>>, second: Option<Seq<char>>) -> Option<
    Seq<char>,
> {
    if first is Some {
        first
    } else {
        second
    }
}

/// One field of the header: `name="value"`.
pub open spec fn header_field(p: Param) -> Seq<char> {
    p.0 + "=\""@ + p.1 + "\""@
}

/// The fields of the header, with a comma and a space between them.
pub open spec fn join_fields(fields: Seq<Param>) -> Seq<char>
    decreases fields.len(),
{
    if fields.len() == 0 {
        Seq::empty()
    } else if fields.len() == 1 {
        header_field(fields[0])
    } else {
        join_fields(fields.drop_last()) + ", "@ + header_field(fields.last())
    }
}

/// A time as it stands in the header: the seconds since 1970 in decimal,
/// and `0` for a time before 1970.
pub open spec fn timestamp(seconds: Option<u64>) -> Seq<char> {
    match seconds {
        Some(s) => decimal(s as nat),
        None => decimal(0),
    }
}

/// Whether the caller's parameters leave a parameter's name to the signer.
pub open spec fn is_free(body: Seq<Param>) -> spec_fn(Param) -> bool {
    |p: Param| first_value(body, p.0) is None
}

/// Whether a parameter travels in the body: its name does not begin with
/// `oauth_`.
pub open spec fn is_payload() -> spec_fn(Param) -> bool {
    |p: Param| !"oauth_"@.is_prefix_of(p.0)
}

/// The parameters that are sent in the body: all but those named `oauth_…`,
/// which the header carries.
pub open spec fn transmitted(body: Seq<Param>) -> Seq<Param> {
    body.filter(is_payload())
}

/// The signature base string: the method in upper case, the
/// percent-encoded URL and the percent-encoded form encoding of the
/// parameters, with `&` between them.
pub open spec fn base_string(method: Seq<char>, uri: Seq<char>, params: Seq<Param>) -> Seq<char> {
    ascii_upper(method) + seq!['&'] + percent(uri) + seq!['&'] + percent(encode_params(params))
}

/// A tag as it stands in the header: in base64, and that percent-encoded.
pub open spec fn tag_text(tag: Seq<u8>) -> Seq<char> {
    percent(base64(tag))
}

/// The signature of a base string under a key: the HMAC-SHA1 tag of the
/// one under the other, each in UTF-8, as it stands in the header.
pub open spec fn signature_text(base: Seq<char>, key: Seq<char>) -> Seq<char> {
    tag_text(hmac_sha1(encode_utf8(key), encode_utf8(base)))
}

impl Oauth1View {
    /// Everything that is signed: the caller's parameters, and the
    /// signer's own under the names that the caller left free.
    pub open spec fn signing_set(self, body: Seq<Param>) -> Seq<Param> {
        body + self.own_params().filter(is_free(body))
    }

    /// The signer's parameters after the caller's have been taken in: under
    /// each name of the signer's own, the caller's first value replaces the
    /// signer's.
    pub open spec fn adopt(self, body: Seq<Param>) -> Self {
        Oauth1View {
            consumer_key: match first_value(body, "oauth_consumer_key"@) {
                Some(v) => v,
                None => self.consumer_key,
            },
            token: or_else(first_value(body, "oauth_token"@), self.token),
            signature_method: match first_value(body, "oauth_signature_method"@) {
                Some(v) => v,
                None => self.signature_method,
            },
            timestamp: match first_value(body, "oauth_timestamp"@) {
                Some(v) => v,
                None => self.timestamp,
            },
            nonce: match first_value(body, "oauth_nonce"@) {
                Some(v) => v,
                None => self.nonce,
            },
            version: match first_value(body, "oauth_version"@) {
                Some(v) => v,
                None => self.version,
            },
            callback: or_else(first_value(body, "oauth_callback"@), self.callback),
            verifier: or_else(first_value(body, "oauth_verifier"@), self.verifier),
            ..self
        }
    }

    /// The signature base string of a request.
    pub open spec fn base(self, method: Seq<char>, uri: Seq<char>, body: Seq<Param>) -> Seq<char> {
        base_string(method, uri, canonical(self.signing_set(body)))
    }

    /// Whether HMAC-SHA1 takes the request: see [`hmac_accepts`].
    pub open spec fn signable(self, method: Seq<char>, uri: Seq<char>, body: Seq<Param>) -> bool {
        hmac_accepts(encode_utf8(self.sign_key), encode_utf8(self.base(method, uri, body)))
    }

    /// The HMAC-SHA1 tag of a request: that of its base string under its
    /// signing key, each in UTF-8.
    pub open spec fn tag(self, method: Seq<char>, uri: Seq<char>, body: Seq<Param>) -> Seq<u8> {
        hmac_sha1(encode_utf8(self.sign_key), encode_utf8(self.base(method, uri, body)))
    }

    /// The signed request: the caller's parameters taken in, the signature
    /// of the base string under the signing key, and the URL as realm.
    pub open spec fn signed(self, method: Seq<char>, uri: Seq<char>, body: Seq<Param>) -> Self {
        Oauth1View {
            signature: signature_text(self.base(method, uri, body), self.sign_key),
            realm: Some(uri),
            ..self.adopt(body)
        }
    }

    /// What signing makes of a request: the caller's parameters are taken
    /// in and the URL becomes the realm, and the signature is that of the
    /// base string under the signing key. Only where HMAC-SHA1 does not
    /// take the request is the signature left as it was.
    pub open spec fn after_signing(
        self,
        method: Seq<char>,
        uri: Seq<char>,
        body: Seq<Param>,
    ) -> Self {
        Oauth1View {
            signature: if self.signable(method, uri, body) {
                signature_text(self.base(method, uri, body), self.sign_key)
            } else {
                self.signature
            },
            realm: Some(uri),
            ..self.adopt(body)
        }
    }

    /// The parameters of a request that has not been signed: those of the
    /// credential, the given nonce and timestamp, and the fixed method and
    /// version.
    pub open spec fn initial(secret: SecretView, nonce: Seq<char>, timestamp: Seq<char>) -> Self {
        Oauth1View {
            consumer_key: secret.consumer_key,
            token: secret.token_key(),
            signature_method: "HMAC-SHA1"@,
            signature: Seq::empty(),
            timestamp,
            nonce,
            version: "1.0"@,
            callback: None,
            verifier: None,
            realm: None,
            sign_key: secret.sign_secret(),
        }
    }

    /// The parameters that the signer brings to the signing set itself, in
    /// the order of their names.
    pub open spec fn own_params(self) -> Seq<Param> {
        optional("oauth_callback"@, self.callback) + seq![
            ("oauth_consumer_key"@, self.consumer_key),
            ("oauth_nonce"@, self.nonce),
            ("oauth_signature_method"@, self.signature_method),
            ("oauth_timestamp"@, self.timestamp),
        ] + optional("oauth_token"@, self.token) + optional("oauth_verifier"@, self.verifier)
            + seq![("oauth_version"@, self.version)]
    }

    /// What the header shows: the realm if it is set, then the OAuth
    /// parameters that have a value, in the order of their names.
    pub open spec fn header_fields(self) -> Seq<Param> {
        optional("realm"@, self.realm) + optional("oauth_callback"@, self.callback) + seq![
            ("oauth_consumer_key"@, self.consumer_key),
            ("oauth_nonce"@, self.nonce),
            ("oauth_signature"@, self.signature),
            ("oauth_signature_method"@, self.signature_method),
            ("oauth_timestamp"@, self.timestamp),
        ] + optional("oauth_token"@, self.token) + optional("oauth_verifier"@, self.verifier)
            + seq![("oauth_version"@, self.version)]
    }

    /// The value of the `Authorization` header.
    pub open spec fn header(self) -> Seq<char> {
        "OAuth "@ + join_fields(self.header_fields())
    }
}

impl View for Oauth1 {
    type V = Oauth1View;

    closed spec fn view(&self) -> Oauth1View {
        Oauth1View {
            consumer_key: self.oauth_consumer_key@,
            token: opt_view(self.oauth_token),
            signature_method: self.oauth_signature_method@,
            signature: self.oauth_signature@,
            timestamp: self.oauth_timestamp@,
            nonce: self.oauth_nonce@,
            version: self.oauth_version@,
            callback: opt_view(self.oauth_callback),
            verifier: opt_view(self.oauth_verifier),
            realm: opt_view(self.realm),
            sign_key: self.sign_key@,
        }
    }
}

impl Oauth1 {
    /// The parameters of an unsigned request for a credential, with a fresh
    /// random nonce of ten letters and digits and the clock's time: see
    /// [`Oauth1::gen_nonce`] and [`Oauth1::gen_timestamp`].
    pub fn new(secret: Secret) -> (res: Self)
        ensures
            res@ == Oauth1View::initial(secret@, res@.nonce, res@.timestamp),
            is_nonce(res@.nonce, 10),
            is_decimal(res@.timestamp),
    {
        let timestamp = Oauth1::gen_timestamp();
        let nonce = Oauth1::gen_nonce(10);
        Oauth1::with_nonce_and_timestamp(secret, nonce.as_str(), timestamp.as_str())
    }

    /// The clock's time in whole seconds since 1970, or `None` where the
    /// clock is set before 1970.
    fn unix_seconds() -> Option<u64> {
        let now = clock_now();
        match since_unix_epoch(&now) {
            Some(elapsed) => Some(whole_seconds(&elapsed)),
            None => None,
        }
    }

    /// A time as it stands in the header: the seconds since 1970 in
    /// decimal, and `0` for a time before 1970.
    pub fn timestamp_text(seconds: Option<u64>) -> (res: String)
        ensures
            res@ == timestamp(seconds),
    {
        match seconds {
            Some(seconds) => decimal_text(seconds),
            None => decimal_text(0),
        }
    }

    /// The clock's time as it stands in the header: see
    /// [`Oauth1::timestamp_text`].
    pub fn gen_timestamp() -> (res: String)
        ensures
            is_decimal(res@),
    {
        let seconds = Oauth1::unix_seconds();
        let res = Oauth1::timestamp_text(seconds);
        assert(res@ == decimal(
            match seconds {
                Some(s) => s as nat,
                None => 0,
            },
        ));
        res
    }

    /// A random text of `n` ASCII letters and digits.
    pub fn gen_nonce(n: usize) -> (res: String)
        ensures
            is_nonce(res@, n as nat),
    {
        random_alphanumeric(n)
    }

    /// The parameters of an unsigned request for a credential, with the
    /// nonce and the timestamp that the caller chose.
    pub fn with_nonce_and_timestamp(secret: Secret, nonce: &str, timestamp: &str) -> (res: Self)
        ensures
            res@ == Oauth1View::initial(secret@, nonce@, timestamp@),
    {
        Oauth1 {
            oauth_consumer_key: secret.get_consumer_key(),
            oauth_token: secret.get_token_key(),
            oauth_signature_method: "HMAC-SHA1".to_owned(),
            oauth_signature: String::new(),
            oauth_timestamp: timestamp.to_owned(),
            oauth_nonce: nonce.to_owned(),
            oauth_version: "1.0".to_owned(),
            oauth_callback: None,
            oauth_verifier: None,
            realm: None,
            sign_key: secret.get_sign_secret(),
        }
    }

    /// Sets the callback that the request announces.
    pub fn test_set_callback(self, s: &str) -> (res: Self)
        ensures
            res@ == (Oauth1View { callback: Some(s@), ..self@ }),
    {
        let mut res = self;
        res.oauth_callback = Some(s.to_owned());
        res
    }

    /// Sets the verifier that the request carries.
    pub fn test_set_verifier(self, s: &str) -> (res: Self)
        ensures
            res@ == (Oauth1View { verifier: Some(s@), ..self@ }),
    {
        let mut res = self;
        res.oauth_verifier = Some(s.to_owned());
        res
    }

    /// Puts a chosen nonce in place of the random one.
    pub fn test_set_nonce(self, s: &str) -> (res: Self)
        ensures
            res@ == (Oauth1View { nonce: s@, ..self@ }),
    {
        let mut res = self;
        res.oauth_nonce = s.to_owned();
        res
    }

    /// Puts a chosen timestamp in place of the clock's.
    pub fn test_set_timestamp(self, s: &str) -> (res: Self)
        ensures
            res@ == (Oauth1View { timestamp: s@, ..self@ }),
    {
        let mut res = self;
        res.oauth_timestamp = s.to_owned();
        res
    }

    /// The signer's own parameters: see [`Oauth1View::own_params`].
    pub fn to_query_pair(&self) -> (res: Vec<(String, String)>)
        ensures
            params_view(res@) == self@.own_params(),
    {
        let mut res: Vec<(String, String)> = Vec::new();
        if let Some(call_back) = &self.oauth_callback {
            res.push(param("oauth_callback", call_back.as_str()));
        }
        res.push(param("oauth_consumer_key", self.oauth_consumer_key.as_str()));
        res.push(param("oauth_nonce", self.oauth_nonce.as_str()));
        res.push(param("oauth_signature_method", self.oauth_signature_method.as_str()));
        res.push(param("oauth_timestamp", self.oauth_timestamp.as_str()));
        if let Some(token) = &self.oauth_token {
            res.push(param("oauth_token", token.as_str()));
        }
        if let Some(verifier) = &self.oauth_verifier {
            res.push(param("oauth_verifier", verifier.as_str()));
        }
        res.push(param("oauth_version", self.oauth_version.as_str()));
        assert(params_view(res@) =~= self@.own_params());
        res
    }

    /// What the header shows: see [`Oauth1View::header_fields`].
    fn header_fields(&self) -> (res: Vec<(String, String)>)
        ensures
            params_view(res@) == self@.header_fields(),
    {
        let mut res: Vec<(String, String)> = Vec::new();
        if let Some(realm) = &self.realm {
            res.push(param("realm", realm.as_str()));
        }
        if let Some(call_back) = &self.oauth_callback {
            res.push(param("oauth_callback", call_back.as_str()));
        }
        res.push(param("oauth_consumer_key", self.oauth_consumer_key.as_str()));
        res.push(param("oauth_nonce", self.oauth_nonce.as_str()));
        res.push(param("oauth_signature", self.oauth_signature.as_str()));
        res.push(param("oauth_signature_method", self.oauth_signature_method.as_str()));
        res.push(param("oauth_timestamp", self.oauth_timestamp.as_str()));
        if let Some(token) = &self.oauth_token {
            res.push(param("oauth_token", token.as_str()));
        }
        if let Some(verifier) = &self.oauth_verifier {
            res.push(param("oauth_verifier", verifier.as_str()));
        }
        res.push(param("oauth_version", self.oauth_version.as_str()));
        assert(params_view(res@) =~= self@.header_fields());
        res
    }

    /// The value of the `Authorization` header: `OAuth `, then each field
    /// as `name="value"`, with `, ` between two fields and nothing after the
    /// last.
    pub fn to_header(&self) -> (res: String)
        ensures
            res@ == self@.header(),
    {
        let fields = self.header_fields();
        let mut res = "OAuth ".to_owned();
        let mut i: usize = 0;
        assert(params_view(fields@).take(0) =~= Seq::<Param>::empty());
        while i < fields.len()
            invariant
                i <= fields.len(),
                res@ == "OAuth "@ + join_fields(params_view(fields@).take(i as int)),
            decreases fields.len() - i,
        {
            let ghost done = params_view(fields@).take(i as int);
            let ghost next = params_view(fields@).take(i + 1);
            assert(next.drop_last() =~= done);
            assert(next.last() == (fields[i as int].0@, fields[i as int].1@));
            if i > 0 {
                res.append(", ");
            }
            res.append(fields[i].0.as_str());
            res.append("=\"");
            res.append(fields[i].1.as_str());
            res.append("\"");
            assert(res@ =~= "OAuth "@ + join_fields(next));
            i += 1;
        }
        assert(params_view(fields@).take(i as int) =~= params_view(fields@));
        res
    }

    /// Takes the caller's parameters in: see [`Oauth1View::adopt`].
    fn adopt(self, body: &Vec<(String, String)>) -> (res: Self)
        ensures
            res@ == self@.adopt(params_view(body@)),
    {
        let mut res = self;
        if let Some(v) = Oauth1::get_value_by_key("oauth_consumer_key", body) {
            res.oauth_consumer_key = v;
        }
        if let Some(v) = Oauth1::get_value_by_key("oauth_token", body) {
            res.oauth_token = Some(v);
        }
        if let Some(v) = Oauth1::get_value_by_key("oauth_signature_method", body) {
            res.oauth_signature_method = v;
        }
        if let Some(v) = Oauth1::get_value_by_key("oauth_timestamp", body) {
            res.oauth_timestamp = v;
        }
        if let Some(v) = Oauth1::get_value_by_key("oauth_nonce", body) {
            res.oauth_nonce = v;
        }
        if let Some(v) = Oauth1::get_value_by_key("oauth_version", body) {
            res.oauth_version = v;
        }
        if let Some(v) = Oauth1::get_value_by_key("oauth_callback", body) {
            res.oauth_callback = Some(v);
        }
        if let Some(v) = Oauth1::get_value_by_key("oauth_verifier", body) {
            res.oauth_verifier = Some(v);
        }
        res
    }

    /// Everything that is signed, in signing order: see
    /// [`Oauth1View::signing_set`] and [`canonical`].
    pub fn signing_params(&self, body: &Vec<(String, String)>) -> (res: Vec<(String, String)>)
        ensures
            params_view(res@) == canonical(self@.signing_set(params_view(body@))),
    {
        let own = self.to_query_pair();
        let ghost free = is_free(params_view(body@));
        let mut merged: Vec<(String, String)> = Vec::new();
        let mut i: usize = 0;
        while i < body.len()
            invariant
                i <= body.len(),
                params_view(merged@) =~= params_view(body@).take(i as int),
            decreases body.len() - i,
        {
            let ghost before = params_view(merged@);
            merged.push(param(body[i].0.as_str(), body[i].1.as_str()));
            assert(params_view(merged@) =~= before.push((body[i as int].0@, body[i as int].1@)));
            i += 1;
        }
        assert(params_view(body@).take(i as int) =~= params_view(body@));
        let mut j: usize = 0;
        proof {
            reveal(Seq::filter);
            assert(params_view(own@).take(0).filter(free) =~= Seq::<Param>::empty());
        }
        while j < own.len()
            invariant
                j <= own.len(),
                free == is_free(params_view(body@)),
                params_view(merged@) =~= params_view(body@) + params_view(own@).take(
                    j as int,
                ).filter(free),
            decreases own.len() - j,
        {
            let ghost next = params_view(own@).take(j + 1);
            proof {
                reveal(Seq::filter);
                assert(next.drop_last() =~= params_view(own@).take(j as int));
                assert(next.last() == (own[j as int].0@, own[j as int].1@));
            }
            let ghost before = params_view(merged@);
            if Oauth1::get_value_by_key(own[j].0.as_str(), body).is_none() {
                merged.push(param(own[j].0.as_str(), own[j].1.as_str()));
                assert(params_view(merged@) =~= before.push(next.last()));
            }
            j += 1;
        }
        assert(params_view(own@).take(j as int) =~= params_view(own@));
        sort_params(&merged)
    }

    /// The parameters that go into the body: see [`transmitted`].
    pub fn transmitted_body(body: &Vec<(String, String)>) -> (res: Vec<(String, String)>)
        ensures
            params_view(res@) == transmitted(params_view(body@)),
    {
        let mut res: Vec<(String, String)> = Vec::new();
        let mut i: usize = 0;
        proof {
            reveal(Seq::filter);
            assert(params_view(body@).take(0).filter(is_payload()) =~= Seq::<Param>::empty());
        }
        while i < body.len()
            invariant
                i <= body.len(),
                params_view(res@) =~= params_view(body@).take(i as int).filter(is_payload()),
            decreases body.len() - i,
        {
            let ghost next = params_view(body@).take(i + 1);
            proof {
                reveal(Seq::filter);
                assert(next.drop_last() =~= params_view(body@).take(i as int));
                assert(next.last() == (body[i as int].0@, body[i as int].1@));
            }
            if !starts_with(body[i].0.as_str(), "oauth_") {
                res.push(param(body[i].0.as_str(), body[i].1.as_str()));
            }
            i += 1;
        }
        assert(params_view(body@).take(i as int) =~= params_view(body@));
        res
    }

    /// The signature base string of a method, a URL and the parameters as
    /// they are given: see [`base_string`].
    pub fn signature_base(method: &str, uri: &str, params: &Vec<(String, String)>) -> (res: String)
        ensures
            res@ == base_string(method@, uri@, params_view(params@)),
    {
        proof {
            reveal_strlit("&");
        }
        assert("&"@ =~= seq!['&']);
        let query = serialize_params(params);
        method.to_ascii_uppercase().concat("&").concat(percent_text(uri).as_str()).concat(
            "&",
        ).concat(percent_text(query.as_str()).as_str())
    }

    /// Whether HMAC-SHA1 takes a base string and a key.
    fn hmac_sha1_accepts(sign_url: &str, sign_key: &str) -> (res: bool)
        ensures
            res == hmac_accepts(encode_utf8(sign_key@), encode_utf8(sign_url@)),
    {
        let key_len = sign_key.as_bytes().len() as u64;
        let url_len = sign_url.as_bytes().len() as u64;
        key_len < 0x2000_0000_0000_0000 && url_len < 0x2000_0000_0000_0000 - 64
    }

    /// Writes a tag as it stands in the header: see [`tag_text`]. The
    /// tag is short enough for the length of its base64 text to fit in
    /// `usize`.
    pub fn encode_tag(tag: &[u8]) -> (res: String)
        requires
            tag@.len() / 3 * 4 + 4 <= usize::MAX,
        ensures
            res@ == tag_text(tag@),
    {
        let sign = base64_text(tag);
        percent_text(sign.as_str())
    }

    /// Signs a base string with a key: see [`signature_text`]. The tag
    /// that is written has 20 bytes.
    fn hmac_sha1_sign(sign_url: &str, sign_key: &str) -> (res: String)
        requires
            hmac_accepts(encode_utf8(sign_key@), encode_utf8(sign_url@)),
        ensures
            res@ == signature_text(sign_url@, sign_key@),
            hmac_sha1(encode_utf8(sign_key@), encode_utf8(sign_url@)).len() == 20,
    {
        let tag = hmac_sha1_tag(sign_key.as_bytes(), sign_url.as_bytes());
        Oauth1::encode_tag(tag.as_slice())
    }

    /// Signs a request whose parameters are given as pairs. The caller's
    /// parameters are taken in, all of them are signed, and the URL
    /// becomes the realm. Of a request too long for HMAC-SHA1 the
    /// signature is left as it was. The tag of a request that is signed
    /// has 20 bytes.
    pub fn sign_with_params(self, method: &str, uri: &str, body: &Vec<(String, String)>) -> (res:
        Self)
        ensures
            res@ == self@.after_signing(method@, uri@, params_view(body@)),
            self@.signable(method@, uri@, params_view(body@)) ==> self@.tag(
                method@,
                uri@,
                params_view(body@),
            ).len() == 20,
    {
        let params = self.signing_params(body);
        let base = Oauth1::signature_base(method, uri, &params);
        let sign = if Oauth1::hmac_sha1_accepts(base.as_str(), self.sign_key.as_str()) {
            Some(Oauth1::hmac_sha1_sign(base.as_str(), self.sign_key.as_str()))
        } else {
            None
        };
        let mut res = self.adopt(body);
        if let Some(sign) = sign {
            res.oauth_signature = sign;
        }
        res.realm = Some(uri.to_owned());
        res
    }

    /// Signs a request whose parameters are given as a form-encoded body:
    /// [`Oauth1::sign_with_params`] on the parameters read from it.
    pub fn sign(self, method: &str, uri: &str, query: &str) -> (res: Self)
        ensures
            res@ == self@.after_signing(method@, uri@, body_params(query@)),
            self@.signable(method@, uri@, body_params(query@)) ==> self@.tag(
                method@,
                uri@,
                body_params(query@),
            ).len() == 20,
    {
        let body = parse_body(query);
        self.sign_with_params(method, uri, &body)
    }

    /// The value of the first parameter with the given name.
    pub fn get_value_by_key(key: &str, data: &Vec<(String, String)>) -> (res: Option<String>)
        ensures
            opt_view(res) == first_value(params_view(data@), key@),
    {
        let mut i: usize = 0;
        assert(params_view(data@).skip(0) =~= params_view(data@));
        while i < data.len()
            invariant
                i <= data.len(),
                first_value(params_view(data@), key@) == first_value(
                    params_view(data@).skip(i as int),
                    key@,
                ),
            decreases data.len() - i,
        {
            if str_eq(data[i].0.as_str(), key) {
                return Some(data[i].1.clone());
            }
            assert(params_view(data@).skip(i as int).drop_first() =~= params_view(data@).skip(
                i + 1,
            ));
            i += 1;
        }
        None
    }
}

} // verus!
