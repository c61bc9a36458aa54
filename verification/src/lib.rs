//! OAuth 1.0a request signing (HMAC-SHA1) and the PIN-based authorization
//! handshake of the Plurk API, with machine-checked contracts.
//!
//! * [`secret`] holds the consumer and token credentials and derives the
//!   signing key.
//! * [`oauth1`] turns a credential, a method, a URL and the request
//!   parameters into the value of the `Authorization` header; [`laws`]
//!   states what holds of that on every input.
//! * [`plurk`] prepares the signed calls of a client and takes the
//!   responses of the three-legged handshake in.
//! * [`form`], [`params`], [`digest`], [`source`] and [`text`] hold what
//!   signing is made of: the form encoding and percent-encoding, the order
//!   of the parameters, HMAC-SHA1 and base64, the clock and the random
//!   nonce, and comparing texts.
//! * [`bounds`] says how long a request may be and still be signed.
//!
//! The network, the file system and the command line are left to the caller:
//! every function here works on plain values.

pub mod bounds;
pub mod digest;
pub mod form;
pub mod laws;
pub mod oauth1;
pub mod params;
pub mod plurk;
pub mod secret;
pub mod source;
pub mod text;
