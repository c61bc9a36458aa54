//! The Plurk client's side of the three-legged, PIN-based handshake, and the
//! signed calls it makes. Sending a call and reading its response is the
//! caller's part.

use crate::form::{body_params, param, params_view, parse_body, Param};
use crate::oauth1::{first_value, transmitted, Oauth1, Oauth1View};
use crate::secret::{Secret, SecretError, SecretView};
use crate::source::is_nonce;
use crate::text::{is_decimal, opt_view, str_eq, str_view};
use vstd::prelude::*;

verus! {

/// Why a call could not be made or did not go through.
#[derive(Debug)]
pub enum PlurkError {
    /// The transport failed; the text is its message.
    ReqwestError(String),
    /// The call could not be put together.
    APICallError(String),
    /// The call needs a token and there is none.
    AuthError(String),
    /// The stored credential could not be read or written.
    SecretError(SecretError),
}

impl PlurkError {
    /// What [`PlurkError::describe`] returns.
    pub open spec fn description(self) -> Seq<char> {
        match self {
            PlurkError::ReqwestError(e) => "reqwest error: "@ + e@,
            PlurkError::APICallError(e) => "API Request Error: "@ + e@,
            PlurkError::AuthError(e) => "Authorization Error: "@ + e@,
            PlurkError::SecretError(e) => "Secret Error: "@ + e.description(),
        }
    }

    /// The message shown to the user.
    pub fn describe(&self) -> (res: String)
        ensures
            res@ == self.description(),
    {
        match self {
            PlurkError::ReqwestError(e) => "reqwest error: ".to_owned().concat(e.as_str()),
            PlurkError::APICallError(e) => "API Request Error: ".to_owned().concat(e.as_str()),
            PlurkError::AuthError(e) => "Authorization Error: ".to_owned().concat(e.as_str()),
            PlurkError::SecretError(e) => "Secret Error: ".to_owned().concat(
                e.describe().as_str(),
            ),
        }
    }
}

/// How often a name occurs among parameters.
pub open spec fn occurrences(params: Seq<Param>, name: Seq<char>) -> nat
    decreases params.len(),
{
    if params.len() == 0 {
        0
    } else if params[0].0 == name {
        1 + occurrences(params.drop_first(), name)
    } else {
        occurrences(params.drop_first(), name)
    }
}

/// The token that a response carries: the values of `oauth_token` and
/// `oauth_token_secret` where each occurs exactly once, whatever else the
/// response holds.
pub open spec fn token_in(params: Seq<Param>) -> Option<(Seq<char>, Seq<char>)> {
    if occurrences(params, "oauth_token"@) == 1 && occurrences(params, "oauth_token_secret"@)
        == 1 {
        match (first_value(params, "oauth_token"@), first_value(params, "oauth_token_secret"@)) {
            (Some(key), Some(secret)) => Some((key, secret)),
            _ => None,
        }
    } else {
        None
    }
}

/// The view of an optional pair of texts.
pub open spec fn pair_view(pair: Option<(String, String)>) -> Option<(Seq<char>, Seq<char>)> {
    match pair {
        Some((a, b)) => Some((a@, b@)),
        None => None,
    }
}

/// A name that does not occur has no first value, and the other way round.
pub proof fn lemma_first_value_occurs(params: Seq<Param>, name: Seq<char>)
    ensures
        first_value(params, name) is Some <==> occurrences(params, name) > 0,
    decreases params.len(),
{
    if params.len() > 0 && params[0].0 != name {
        lemma_first_value_occurs(params.drop_first(), name);
    }
}

/// The credential after a response to a token request: the token of the
/// response in place of any earlier one, or the credential as it was where
/// the response carries no token.
pub open spec fn after_response(secret: SecretView, response: Seq<Param>) -> SecretView {
    match token_in(response) {
        Some((key, token_secret)) => secret.with_token(key, token_secret),
        None => secret,
    }
}

/// The handshake never takes a token away. A client that starts without a
/// token is not authorized; it is as soon as a response carries a token,
/// and stays so whatever the next response holds; and it holds the token of
/// the last response that carried one.
pub proof fn lemma_token_lifecycle(start: SecretView, first: Seq<Param>, second: Seq<Param>)
    requires
        start.token is None,
        token_in(first) is Some,
    ensures
        !start.is_auth(),
        after_response(start, first).is_auth(),
        after_response(start, first).token == token_in(first),
        after_response(after_response(start, first), second).is_auth(),
        after_response(after_response(start, first), second).token == if token_in(second) is Some {
            token_in(second)
        } else {
            token_in(first)
        },
{
}

/// A response changes nothing of a credential but its token, and a
/// credential that has a token has one afterwards.
pub proof fn lemma_response_keeps_consumer(secret: SecretView, response: Seq<Param>)
    ensures
        after_response(secret, response).consumer_key == secret.consumer_key,
        after_response(secret, response).consumer_secret == secret.consumer_secret,
        secret.is_auth() ==> after_response(secret, response).is_auth(),
{
}

/// The header that signs a call: that of a fresh request for the
/// credential, with the given nonce and timestamp, after signing.
pub open spec fn authorization(
    secret: SecretView,
    nonce: Seq<char>,
    timestamp: Seq<char>,
    method: Seq<char>,
    url: Seq<char>,
    query: Seq<Param>,
) -> Seq<char> {
    Oauth1View::initial(secret, nonce, timestamp).after_signing(method, url, query).header()
}

/// Whether a text is the header of a call signed with some nonce of ten
/// letters and digits and some time in whole seconds.
pub open spec fn is_authorization(
    header: Seq<char>,
    secret: SecretView,
    method: Seq<char>,
    url: Seq<char>,
    query: Seq<Param>,
) -> bool {
    exists|nonce: Seq<char>, timestamp: Seq<char>|
        is_nonce(nonce, 10) && is_decimal(timestamp) && header == #[trigger] authorization(
            secret,
            nonce,
            timestamp,
            method,
            url,
            query,
        )
}

/// Of a URL as the `url` crate reads it, the text up to the end of its
/// path; `None` where the crate does not take the text for a URL.
pub uninterp spec fn url_up_to_path(url: Seq<char>) -> Option<Seq<char>>;

/// `url::Url::parse`, and of the parsed URL the slice that ends at
/// `url::Position::AfterPath`. Both depend on the text alone.
#[verifier::external_body]
pub(crate) fn parse_up_to_path(url: &str) -> (res: Option<String>)
    ensures
        opt_view(res) == url_up_to_path(url@),
{
    match url::Url::parse(url) {
        Ok(parsed) => Some(parsed[..url::Position::AfterPath].to_owned()),
        Err(_) => None,
    }
}

/// A call that is ready to be sent with `POST`.
pub struct ApiCall {
    /// Where the call goes.
    pub url: String,
    /// The parameters of its form-encoded body.
    pub body: Vec<(String, String)>,
    /// The value of its `Authorization` header.
    pub authorization: String,
}

/// The parameters of a call: a file to upload takes the place of any
/// parameters.
pub open spec fn effective_query(query: Seq<Param>, with_file: bool) -> Seq<Param> {
    if with_file {
        Seq::empty()
    } else {
        query
    }
}

/// Whether a result is the call for an API path: it goes to the path's
/// URL, the given parameters are signed for that URL up to its path, and
/// the given body travels with it. Where the URL cannot be read there is
/// no call.
pub open spec fn is_call(
    res: Result<ApiCall, PlurkError>,
    secret: SecretView,
    api: Seq<char>,
    query: Seq<Param>,
    body: Seq<Param>,
) -> bool {
    let url = "https://www.plurk.com"@ + api;
    match url_up_to_path(url) {
        Some(base) => {
            &&& res matches Ok(call)
            &&& call.url@ == url
            &&& params_view(call.body@) == body
            &&& is_authorization(call.authorization@, secret, "POST"@, base, query)
        },
        None => res matches Err(PlurkError::APICallError(e)) && e@ == "Invalid URL"@,
    }
}

/// What to do with a response, by its status.
#[derive(Debug, Clone, Copy, PartialEq, Eq, Structural)]
pub enum StatusAction {
    /// Read the response.
    Proceed,
    /// Report the status, then read the response.
    ReportAndProceed,
    /// Report the status and read no further.
    ReportAndStop,
}

/// A status of success is passed over, 400 is reported and the response
/// still read, and every other status ends the call.
pub open spec fn status_action(status: u16) -> StatusAction {
    if 200 <= status <= 299 {
        StatusAction::Proceed
    } else if status == 400 {
        StatusAction::ReportAndProceed
    } else {
        StatusAction::ReportAndStop
    }
}

/// A client of the Plurk API: the credential it signs with.
#[derive(Debug)]
pub struct Plurk {
    secret: Secret,
}

impl View for Plurk {
    type V = SecretView;

    closed spec fn view(&self) -> SecretView {
        self.secret@
    }
}

impl Clone for Plurk {
    fn clone(&self) -> (res: Self)
        ensures
            res == *self,
    {
        Plurk { secret: self.secret.clone() }
    }
}

impl Plurk {
    /// A client from the parts of its credential. There is a token only
    /// where both its key and its secret are given.
    pub fn new(
        consumer_key: &str,
        consumer_secret: &str,
        token_key: Option<&str>,
        token_secret: Option<&str>,
    ) -> (res: Self)
        ensures
            res@ == SecretView::from_parts(
                consumer_key@,
                consumer_secret@,
                str_view(token_key),
                str_view(token_secret),
            ),
    {
        Plurk { secret: Secret::new(consumer_key, consumer_secret, token_key, token_secret) }
    }

    /// A client for a credential.
    pub fn from_secret(secret: Secret) -> (res: Self)
        ensures
            res@ == secret@,
    {
        Plurk { secret }
    }

    /// The credential.
    pub fn secret(&self) -> (res: &Secret)
        ensures
            res@ == self@,
    {
        &self.secret
    }

    /// Whether there is a token, temporary or permanent.
    pub fn is_auth(&self) -> (res: bool)
        ensures
            res == self@.is_auth(),
    {
        self.secret.get_token_key().is_some()
    }

    /// Replaces the token.
    pub fn update_token(&mut self, token_key: &str, token_secret: &str)
        ensures
            final(self)@ == old(self)@.with_token(token_key@, token_secret@),
    {
        self.secret.update_token_mut(token_key, token_secret);
    }

    /// The URL of an API path.
    pub fn prep_cmd(api: &str) -> (res: String)
        ensures
            res@ == "https://www.plurk.com"@ + api@,
    {
        "https://www.plurk.com".to_owned().concat(api)
    }

    /// The `Authorization` header for a call, with everything given that
    /// [`Plurk::sign`] draws from the machine: the nonce, the timestamp and
    /// the URL up to its path.
    pub fn sign_with(
        &self,
        nonce: &str,
        timestamp: &str,
        method: &str,
        base: &str,
        query: &Vec<(String, String)>,
    ) -> (res: String)
        ensures
            res@ == authorization(
                self@,
                nonce@,
                timestamp@,
                method@,
                base@,
                params_view(query@),
            ),
    {
        Oauth1::with_nonce_and_timestamp(self.secret.clone(), nonce, timestamp).sign_with_params(
            method,
            base,
            query,
        ).to_header()
    }

    /// The `Authorization` header for a call: the URL is cut after its
    /// path, and a fresh request, with a random nonce and the time of the
    /// clock, is signed for it. `None` where the URL cannot be read.
    pub fn sign(&self, method: &str, url: &str, query: &Vec<(String, String)>) -> (res: Option<
        String,
    >)
        ensures
            match url_up_to_path(url@) {
                Some(base) => res is Some && is_authorization(
                    res.unwrap()@,
                    self@,
                    method@,
                    base,
                    params_view(query@),
                ),
                None => res is None,
            },
    {
        match parse_up_to_path(url) {
            Some(base) => {
                let timestamp = Oauth1::gen_timestamp();
                let nonce = Oauth1::gen_nonce(10);
                Some(
                    self.sign_with(
                        nonce.as_str(),
                        timestamp.as_str(),
                        method,
                        base.as_str(),
                        query,
                    ),
                )
            },
            None => None,
        }
    }

    /// The call to a path that signs the given parameters and carries the
    /// given body.
    fn prepare(&self, api: &str, query: &Vec<(String, String)>, body: Vec<(String, String)>) -> (res:
        Result<ApiCall, PlurkError>)
        ensures
            is_call(res, self@, api@, params_view(query@), params_view(body@)),
    {
        let url = Plurk::prep_cmd(api);
        match self.sign("POST", url.as_str(), query) {
            Some(authorization) => Ok(ApiCall { url, body, authorization }),
            None => Err(PlurkError::APICallError("Invalid URL".to_owned())),
        }
    }

    /// The call for an API path. A call that uploads a file carries no
    /// parameters, whatever is given; of any other call all the parameters
    /// are signed, and those not named `oauth_…` travel in the body.
    pub fn prepare_request(&self, api: &str, query: &Vec<(String, String)>, with_file: bool) -> (res:
        Result<ApiCall, PlurkError>)
        ensures
            is_call(
                res,
                self@,
                api@,
                effective_query(params_view(query@), with_file),
                transmitted(effective_query(params_view(query@), with_file)),
            ),
    {
        let none: Vec<(String, String)> = Vec::new();
        assert(params_view(none@) =~= Seq::<Param>::empty());
        let query = if with_file {
            &none
        } else {
            query
        };
        self.prepare(api, query, Oauth1::transmitted_body(query))
    }

    /// Where the user authorizes the token that the client holds.
    pub fn get_auth_url(&self) -> (res: Result<String, PlurkError>)
        ensures
            match self@.token_key() {
                Some(key) => res matches Ok(url) && url@
                    == "https://www.plurk.com/OAuth/authorize?oauth_token="@ + key,
                None => res matches Err(PlurkError::AuthError(e)) && e@
                    == "Missing requested token key"@,
            },
    {
        match self.secret.get_token_key() {
            Some(token_key) => Ok(
                "https://www.plurk.com/OAuth/authorize?oauth_token=".to_owned().concat(
                    token_key.as_str(),
                ),
            ),
            None => Err(PlurkError::AuthError("Missing requested token key".to_owned())),
        }
    }

    /// The token among parameters: see [`token_in`].
    pub fn token_from_params(params: &Vec<(String, String)>) -> (res: Option<(String, String)>)
        ensures
            pair_view(res) == token_in(params_view(params@)),
    {
        proof {
            lemma_first_value_occurs(params_view(params@), "oauth_token"@);
            lemma_first_value_occurs(params_view(params@), "oauth_token_secret"@);
        }
        if Plurk::count(params, "oauth_token") != 1 || Plurk::count(params, "oauth_token_secret")
            != 1 {
            return None;
        }
        match (
            Oauth1::get_value_by_key("oauth_token", params),
            Oauth1::get_value_by_key("oauth_token_secret", params),
        ) {
            (Some(key), Some(secret)) => Some((key, secret)),
            _ => None,
        }
    }

    /// How often a name occurs among parameters, counted up to two.
    fn count(params: &Vec<(String, String)>, name: &str) -> (res: usize)
        ensures
            res <= 2,
            res < 2 ==> res == occurrences(params_view(params@), name@),
            res == 2 ==> occurrences(params_view(params@), name@) >= 2,
    {
        let mut found: usize = 0;
        let mut i: usize = 0;
        assert(params_view(params@).skip(0) =~= params_view(params@));
        while i < params.len() && found < 2
            invariant
                i <= params.len(),
                found <= 2,
                occurrences(params_view(params@), name@) == found + occurrences(
                    params_view(params@).skip(i as int),
                    name@,
                ),
            decreases params.len() - i,
        {
            assert(params_view(params@).skip(i as int).drop_first() =~= params_view(params@).skip(
                i + 1,
            ));
            if str_eq(params[i].0.as_str(), name) {
                found += 1;
            }
            i += 1;
        }
        found
    }

    /// The token in a form-encoded response: see [`token_in`].
    pub fn parse_oauth_token(raw: &str) -> (res: Option<(String, String)>)
        ensures
            pair_view(res) == token_in(body_params(raw@)),
    {
        let params = parse_body(raw);
        Plurk::token_from_params(&params)
    }

    /// The call that asks for a temporary token, to be authorized out of
    /// band (`oob`). The callback travels in the body and, signed, in the
    /// header.
    pub fn request_auth_call(&self) -> (res: Result<ApiCall, PlurkError>)
        ensures
            is_call(
                res,
                self@,
                "/OAuth/request_token"@,
                seq![("oauth_callback"@, "oob"@)],
                seq![("oauth_callback"@, "oob"@)],
            ),
    {
        let query = vec![param("oauth_callback", "oob")];
        let body = vec![param("oauth_callback", "oob")];
        assert(params_view(query@) =~= seq![("oauth_callback"@, "oob"@)]);
        assert(params_view(body@) =~= seq![("oauth_callback"@, "oob"@)]);
        self.prepare("/OAuth/request_token", &query, body)
    }

    /// The call that trades the temporary token and the user's PIN for a
    /// permanent token. The PIN travels as verifier in the body and,
    /// signed, in the header.
    pub fn verify_auth_call(&self, pin: &str) -> (res: Result<ApiCall, PlurkError>)
        ensures
            is_call(
                res,
                self@,
                "/OAuth/access_token"@,
                seq![("oauth_verifier"@, pin@)],
                seq![("oauth_verifier"@, pin@)],
            ),
    {
        let query = vec![param("oauth_verifier", pin)];
        let body = vec![param("oauth_verifier", pin)];
        assert(params_view(query@) =~= seq![("oauth_verifier"@, pin@)]);
        assert(params_view(body@) =~= seq![("oauth_verifier"@, pin@)]);
        self.prepare("/OAuth/access_token", &query, body)
    }

    /// Takes the response to a token request in: see [`after_response`].
    pub fn accept_token_response(&mut self, response: &str)
        ensures
            final(self)@ == after_response(old(self)@, body_params(response@)),
    {
        if let Some((key, secret)) = Plurk::parse_oauth_token(response) {
            self.update_token(key.as_str(), secret.as_str());
        }
    }

    /// The client in a line: its consumer key, and whether it holds a token.
    pub fn describe(&self) -> (res: String)
        ensures
            res@ == "Plurk API "@ + self@.consumer_key + " ("@ + (if self@.is_auth() {
                "Authorized"@
            } else {
                "Unauthorized"@
            }) + ")"@,
    {
        let state = if self.is_auth() {
            "Authorized"
        } else {
            "Unauthorized"
        };
        "Plurk API ".to_owned().concat(self.secret.get_consumer_key().as_str()).concat(
            " (",
        ).concat(state).concat(")")
    }
}

/// What to do with a response of the given status: see [`status_action`].
pub fn on_status(status: u16) -> (res: StatusAction)
    ensures
        res == status_action(status),
{
    if 200 <= status && status <= 299 {
        StatusAction::Proceed
    } else if status == 400 {
        StatusAction::ReportAndProceed
    } else {
        StatusAction::ReportAndStop
    }
}

/// Whether a response declares itself as JSON: its content type is
/// `application/json`, letter for letter.
pub fn is_json(content_type: &str) -> (res: bool)
    ensures
        res == (content_type@ == "application/json"@),
{
    str_eq(content_type, "application/json")
}

} // verus!
