//! The signed-request capability: given the application pair, or the
//! application pair with a user token pair, produce the OAuth1
//! HMAC-SHA1 `Authorization` header for an outbound request. Signing is
//! pure with respect to the store, but each header carries a fresh
//! nonce and timestamp, so the exact text cannot be promised — only its
//! shape, which the serializer fixes for every outcome. The signer
//! refuses an address with a query part (it would be signed wrongly,
//! and the signing crate asserts against it), so every caller hands the
//! query in separately or not at all.
use vstd::prelude::*;

use crate::auth::TwitterTokenPair;

verus! {

/// The address carries no query part: no `?` anywhere.
pub open spec fn spec_no_query(uri: Seq<char>) -> bool {
    forall|i: int| 0 <= i < uri.len() ==> uri[i] != '?'
}

/// `sub` occurs somewhere in `s`.
pub open spec fn spec_contains(s: Seq<char>, sub: Seq<char>) -> bool {
    exists|i: int| 0 <= i && i + sub.len() <= s.len() && #[trigger] s.subrange(i, i + sub.len())
        == sub
}

/// An `Authorization` header value as the OAuth1 scheme and the signing
/// crate shape it: the `OAuth ` prefix, the parameters every signed
/// request carries, and the signature written last.
pub open spec fn spec_oauth_header(r: Seq<char>) -> bool {
    &&& r.len() >= 6
    &&& r.subrange(0, 6) == "OAuth "@
    &&& spec_contains(r, "oauth_consumer_key=\""@)
    &&& spec_contains(r, "oauth_nonce=\""@)
    &&& spec_contains(r, "oauth_signature_method=\"HMAC-SHA1\""@)
    &&& spec_contains(r, "oauth_timestamp=\""@)
    &&& spec_contains(r, "oauth_signature=\""@)
    &&& r.last() == '"'
}

/// Relies on oauth1_request::Builder (new, callback, post): the OAuth1
/// header of a POST carrying `oauth_callback`, signed with the
/// application credentials alone. The serializer writes `OAuth `, then
/// every parameter as `name="value",` — consumer key, callback, nonce,
/// signature method `HMAC-SHA1`, timestamp — and the signature last.
/// Its debug assertion aborts on a URI with a query part, hence the
/// precondition.
#[verifier::external_body]
fn sign_request_token(consumer_key: &str, consumer_secret: &str, callback: &str, uri: &str) -> (r:
    String)
    requires
        spec_no_query(uri@),
    ensures
        spec_oauth_header(r@),
        spec_contains(r@, "oauth_callback=\""@),
{
    let client = oauth1_request::Credentials::new(consumer_key, consumer_secret);
    let mut builder = oauth1_request::Builder::<_, _, &str>::new(
        client,
        oauth1_request::HmacSha1::new(),
    );
    builder.callback(callback);
    builder.post(uri, &())
}

/// Relies on oauth1_request::Builder (with_token, verifier, post): the
/// OAuth1 header of a POST carrying `oauth_verifier`, signed with the
/// application pair and a token pair, so `oauth_token` is written too.
/// The signing crate's debug assertion aborts on a URI with a query
/// part, hence the precondition.
#[verifier::external_body]
fn sign_access_token(
    consumer_key: &str,
    consumer_secret: &str,
    token: &str,
    token_secret: &str,
    verifier: &str,
    uri: &str,
) -> (r: String)
    requires
        spec_no_query(uri@),
    ensures
        spec_oauth_header(r@),
        spec_contains(r@, "oauth_token=\""@),
        spec_contains(r@, "oauth_verifier=\""@),
{
    let token = oauth1_request::Token::from_parts(consumer_key, consumer_secret, token, token_secret);
    let mut builder = oauth1_request::Builder::with_token(token, oauth1_request::HmacSha1::new());
    builder.verifier(verifier);
    builder.post(uri, &())
}

/// Relies on oauth1_request::authorize: the OAuth1 header of a request
/// without request parameters, signed with the application pair and a
/// token pair, so `oauth_token` is written. The signing crate's debug
/// assertion aborts on a URI with a query part, hence the precondition.
#[verifier::external_body]
fn sign_plain(
    consumer_key: &str,
    consumer_secret: &str,
    token: &str,
    token_secret: &str,
    method: &str,
    uri: &str,
) -> (r: String)
    requires
        spec_no_query(uri@),
    ensures
        spec_oauth_header(r@),
        spec_contains(r@, "oauth_token=\""@),
{
    let token = oauth1_request::Token::from_parts(consumer_key, consumer_secret, token, token_secret);
    oauth1_request::authorize(method, uri, &(), &token, oauth1_request::HmacSha1::new())
}

/// Relies on oauth1_request::authorize with a ParameterList: the OAuth1
/// header of a request with one query parameter, which the signature
/// must cover; `oauth_token` is written. `ParameterList::new` sorts, so
/// the serializer's ordering assertion cannot trip; its debug assertion
/// on a URI with a query part remains, hence the precondition.
#[verifier::external_body]
fn sign_with_param(
    consumer_key: &str,
    consumer_secret: &str,
    token: &str,
    token_secret: &str,
    method: &str,
    uri: &str,
    key: &str,
    value: &str,
) -> (r: String)
    requires
        spec_no_query(uri@),
    ensures
        spec_oauth_header(r@),
        spec_contains(r@, "oauth_token=\""@),
{
    let token = oauth1_request::Token::from_parts(consumer_key, consumer_secret, token, token_secret);
    let params = oauth1_request::ParameterList::new(vec![(key, value)]);
    oauth1_request::authorize(method, uri, &params, &token, oauth1_request::HmacSha1::new())
}

/// The application credentials, from which per-user clients are made.
#[derive(Clone, Debug)]
pub struct TwitterBuilder {
    pub consumer_key: String,
    pub consumer_secret: String,
}

impl TwitterBuilder {
    pub fn new(consumer_key: String, consumer_secret: String) -> (r: TwitterBuilder)
        ensures
            r.consumer_key@ == consumer_key@,
            r.consumer_secret@ == consumer_secret@,
    {
        TwitterBuilder { consumer_key, consumer_secret }
    }

    /// Application-only signing for the request-token call.
    pub fn request_token_header(&self, callback: &str, uri: &str) -> (r: String)
        requires
            spec_no_query(uri@),
        ensures
            spec_oauth_header(r@),
            spec_contains(r@, "oauth_callback=\""@),
    {
        sign_request_token(
            self.consumer_key.as_str(),
            self.consumer_secret.as_str(),
            callback,
            uri,
        )
    }

    /// Signing for the verifier exchange, with the temporary pair.
    pub fn access_token_header(
        &self,
        tokens: &TwitterTokenPair,
        verifier: &str,
        uri: &str,
    ) -> (r: String)
        requires
            spec_no_query(uri@),
        ensures
            spec_oauth_header(r@),
            spec_contains(r@, "oauth_token=\""@),
            spec_contains(r@, "oauth_verifier=\""@),
    {
        sign_access_token(
            self.consumer_key.as_str(),
            self.consumer_secret.as_str(),
            tokens.token.as_str(),
            tokens.secret.as_str(),
            verifier,
            uri,
        )
    }

    /// A client that signs with the given user token pair.
    pub fn with_auth(&self, tokens: TwitterTokenPair) -> (r: TwitterClient)
        ensures
            r.consumer_key@ == self.consumer_key@,
            r.consumer_secret@ == self.consumer_secret@,
            r.tokens@ == tokens@,
    {
        TwitterClient {
            consumer_key: self.consumer_key.clone(),
            consumer_secret: self.consumer_secret.clone(),
            tokens,
        }
    }
}

/// A signer bound to one linked account's token pair.
#[derive(Debug)]
pub struct TwitterClient {
    pub consumer_key: String,
    pub consumer_secret: String,
    pub tokens: TwitterTokenPair,
}

impl TwitterClient {
    /// The header for a request that carries no request parameters
    /// (a JSON-body POST, or a plain GET).
    pub fn auth_header(&self, method: &str, uri: &str) -> (r: String)
        requires
            spec_no_query(uri@),
        ensures
            spec_oauth_header(r@),
            spec_contains(r@, "oauth_token=\""@),
    {
        sign_plain(
            self.consumer_key.as_str(),
            self.consumer_secret.as_str(),
            self.tokens.token.as_str(),
            self.tokens.secret.as_str(),
            method,
            uri,
        )
    }

    /// The header for a request with one query parameter, which the
    /// signature must cover; the parameter is handed in beside the
    /// query-free address.
    pub fn auth_header_with_param(&self, method: &str, uri: &str, key: &str, value: &str) -> (r:
        String)
        requires
            spec_no_query(uri@),
        ensures
            spec_oauth_header(r@),
            spec_contains(r@, "oauth_token=\""@),
    {
        sign_with_param(
            self.consumer_key.as_str(),
            self.consumer_secret.as_str(),
            self.tokens.token.as_str(),
            self.tokens.secret.as_str(),
            method,
            uri,
            key,
            value,
        )
    }
}

} // verus!
