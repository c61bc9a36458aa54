//! Consumer and token credentials, and the signing key derived from them.

use crate::text::{opt_view, str_view};
use vstd::prelude::*;

verus! {

/// Why a stored credential could not be read or written.
#[derive(Debug)]
pub enum SecretError {
    /// The file could not be read or written.
    IOError(String),
    /// The document is not a well-formed credential.
    TOMLError(String),
}

impl SecretError {
    /// What [`SecretError::describe`] returns.
    pub open spec fn description(self) -> Seq<char> {
        match self {
            SecretError::IOError(e) => "IO Error: "@ + e@,
            SecretError::TOMLError(e) => "TOML Error: "@ + e@,
        }
    }

    /// The message shown to the user.
    pub fn describe(&self) -> (res: String)
        ensures
            res@ == self.description(),
    {
        match self {
            SecretError::IOError(e) => "IO Error: ".to_owned().concat(e.as_str()),
            SecretError::TOMLError(e) => "TOML Error: ".to_owned().concat(e.as_str()),
        }
    }
}

/// A key together with the secret that belongs to it.
#[derive(Debug)]
struct SecretPair {
    key: String,
    secret: String,
}

impl Clone for SecretPair {
    fn clone(&self) -> (res: Self)
        ensures
            res == *self,
    {
        SecretPair { key: self.key.clone(), secret: self.secret.clone() }
    }
}

/// The credential of one application: always a consumer pair, and a token
/// pair once the service has issued one.
#[derive(Debug)]
pub struct Secret {
    consumer: SecretPair,
    token: Option<SecretPair>,
}

/// What a [`Secret`] holds, as plain text.
pub struct SecretView {
    pub consumer_key: Seq<char>,
    pub consumer_secret: Seq<char>,
    /// Token key and token secret.
    pub token: Option<(Seq<char>, Seq<char>)>,
}

impl SecretView {
    /// The credential made of the given parts: it has a token only where
    /// both the token's key and its secret are given.
    pub open spec fn from_parts(
        consumer_key: Seq<char>,
        consumer_secret: Seq<char>,
        token_key: Option<Seq<char>>,
        token_secret: Option<Seq<char>>,
    ) -> SecretView {
        SecretView {
            consumer_key,
            consumer_secret,
            token: match (token_key, token_secret) {
                (Some(key), Some(secret)) => Some((key, secret)),
                _ => None,
            },
        }
    }

    /// The key of the token, if there is a token.
    pub open spec fn token_key(self) -> Option<Seq<char>> {
        match self.token {
            Some((key, _)) => Some(key),
            None => None,
        }
    }

    /// The secret of the token, if there is a token.
    pub open spec fn token_secret(self) -> Option<Seq<char>> {
        match self.token {
            Some((_, secret)) => Some(secret),
            None => None,
        }
    }

    /// Whether there is a token.
    pub open spec fn is_auth(self) -> bool {
        self.token is Some
    }

    /// The key that signatures are computed with: the consumer secret, an
    /// ampersand, and the token secret if there is a token. Neither part is
    /// escaped.
    pub open spec fn sign_secret(self) -> Seq<char> {
        match self.token {
            Some((_, secret)) => self.consumer_secret + seq!['&'] + secret,
            None => self.consumer_secret + seq!['&'],
        }
    }

    /// The credential with its token replaced.
    pub open spec fn with_token(self, key: Seq<char>, secret: Seq<char>) -> SecretView {
        SecretView { token: Some((key, secret)), ..self }
    }

    /// What [`Secret::describe`] returns.
    pub open spec fn description(self) -> Seq<char> {
        let consumer = "Consumer Key: "@ + self.consumer_key + "\nConsumer Secret: "@
            + self.consumer_secret;
        match self.token {
            Some((key, secret)) => consumer + "\nToken Key: "@ + key + "\nToken Secret: "@ + secret,
            None => consumer,
        }
    }
}

/// A credential is its four parts and no more: taken apart and put
/// together again it is the same credential, with the same signing key and
/// the same token or none.
pub proof fn lemma_parts_round_trip(secret: SecretView)
    ensures
        SecretView::from_parts(
            secret.consumer_key,
            secret.consumer_secret,
            secret.token_key(),
            secret.token_secret(),
        ) == secret,
{
}

impl View for Secret {
    type V = SecretView;

    closed spec fn view(&self) -> SecretView {
        SecretView {
            consumer_key: self.consumer.key@,
            consumer_secret: self.consumer.secret@,
            token: match self.token {
                Some(pair) => Some((pair.key@, pair.secret@)),
                None => None,
            },
        }
    }
}

impl Clone for Secret {
    fn clone(&self) -> (res: Self)
        ensures
            res == *self,
    {
        let token = match &self.token {
            Some(pair) => Some(pair.clone()),
            None => None,
        };
        Secret { consumer: self.consumer.clone(), token }
    }
}

impl Secret {
    /// A credential from its parts. There is a token only where both its key
    /// and its secret are given.
    pub fn new(
        consumer_key: &str,
        consumer_secret: &str,
        token_key: Option<&str>,
        token_secret: Option<&str>,
    ) -> (res: Self)
        ensures
            res@ == SecretView::from_parts(
                consumer_key@,
                consumer_secret@,
                str_view(token_key),
                str_view(token_secret),
            ),
    {
        let token = match (token_key, token_secret) {
            (Some(key), Some(secret)) => Some(
                SecretPair { key: key.to_owned(), secret: secret.to_owned() },
            ),
            _ => None,
        };
        Secret {
            consumer: SecretPair {
                key: consumer_key.to_owned(),
                secret: consumer_secret.to_owned(),
            },
            token,
        }
    }

    /// The same consumer with the given token in place of any earlier one.
    pub fn update_token(self, token_key: &str, token_secret: &str) -> (res: Self)
        ensures
            res@ == self@.with_token(token_key@, token_secret@),
    {
        Secret {
            consumer: self.consumer,
            token: Some(SecretPair { key: token_key.to_owned(), secret: token_secret.to_owned() }),
        }
    }

    /// Replaces the token in place.
    pub fn update_token_mut(&mut self, token_key: &str, token_secret: &str)
        ensures
            final(self)@ == old(self)@.with_token(token_key@, token_secret@),
    {
        self.token = Some(
            SecretPair { key: token_key.to_owned(), secret: token_secret.to_owned() },
        );
    }

    /// The consumer key.
    pub fn get_consumer_key(&self) -> (res: String)
        ensures
            res@ == self@.consumer_key,
    {
        self.consumer.key.clone()
    }

    /// The consumer secret.
    pub fn get_consumer_secret(&self) -> (res: String)
        ensures
            res@ == self@.consumer_secret,
    {
        self.consumer.secret.clone()
    }

    /// The key of the token, if there is a token.
    pub fn get_token_key(&self) -> (res: Option<String>)
        ensures
            opt_view(res) == self@.token_key(),
    {
        match &self.token {
            Some(token) => Some(token.key.clone()),
            None => None,
        }
    }

    /// The secret of the token, if there is a token.
    pub fn get_token_secret(&self) -> (res: Option<String>)
        ensures
            opt_view(res) == self@.token_secret(),
    {
        match &self.token {
            Some(token) => Some(token.secret.clone()),
            None => None,
        }
    }

    /// The signing key: see [`SecretView::sign_secret`].
    pub fn get_sign_secret(&self) -> (res: String)
        ensures
            res@ == self@.sign_secret(),
    {
        proof {
            reveal_strlit("&");
        }
        assert("&"@ =~= seq!['&']);
        let key = self.consumer.secret.clone().concat("&");
        match &self.token {
            Some(token) => key.concat(token.secret.as_str()),
            None => key,
        }
    }

    /// The credential in readable form, secrets included.
    pub fn describe(&self) -> (res: String)
        ensures
            res@ == self@.description(),
    {
        let consumer = "Consumer Key: ".to_owned().concat(self.consumer.key.as_str()).concat(
            "\nConsumer Secret: ",
        ).concat(self.consumer.secret.as_str());
        match &self.token {
            Some(token) => consumer.concat("\nToken Key: ").concat(token.key.as_str()).concat(
                "\nToken Secret: ",
            ).concat(token.secret.as_str()),
            None => consumer,
        }
    }
}

} // verus!
