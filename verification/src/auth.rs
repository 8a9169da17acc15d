//! The three-legged OAuth1 handshake engine: what each upstream answer
//! means, and how the pending and linked tables move with it. The
//! network calls themselves happen outside; the engine receives each
//! answer as a plain status flag and body, and decides everything else.
use vstd::prelude::*;
use vstd::string::StringExecFns;

use crate::db::{InMemoryDB, UserView, User};
use crate::errors::CoreError;
use crate::post::{profile_url, spec_profile_url};
use crate::text::str_chars;
use crate::urlenc::{form_value, parse_u64, spec_form_value, spec_parse_u64};

verus! {

/// A permanent or temporary OAuth1 token with its secret.
#[derive(Clone, Debug)]
pub struct TwitterTokenPair {
    pub token: String,
    pub secret: String,
}

pub ghost struct TokenPairView {
    pub token: Seq<char>,
    pub secret: Seq<char>,
}

impl View for TwitterTokenPair {
    type V = TokenPairView;

    open spec fn view(&self) -> TokenPairView {
        TokenPairView { token: self.token@, secret: self.secret@ }
    }
}

impl TwitterTokenPair {
    /// A field-for-field copy, known to carry the same strings.
    pub fn copy_of(&self) -> (r: TwitterTokenPair)
        ensures
            r@ == self@,
    {
        TwitterTokenPair { token: self.token.clone(), secret: self.secret.clone() }
    }
}

/// What an upstream call came back with: whether the status was a
/// success, and the body as text.
#[derive(Debug)]
pub struct UpstreamReply {
    pub success: bool,
    pub body: String,
}

/// The query a completed authorization callback carries.
#[derive(Debug)]
pub struct CallbackQuery {
    pub oauth_token: String,
    pub oauth_verifier: String,
    pub chat_id: String,
}

/// Read the callback query string: all three fields must be present
/// and decodable.
pub fn parse_callback_query(q: &str) -> (r: Option<CallbackQuery>)
    ensures
        match r {
            Some(c) => spec_form_value(q@, "oauth_token"@) == Some(c.oauth_token@)
                && spec_form_value(q@, "oauth_verifier"@) == Some(c.oauth_verifier@)
                && spec_form_value(q@, "chat_id"@) == Some(c.chat_id@),
            None => spec_form_value(q@, "oauth_token"@) is None || spec_form_value(
                q@,
                "oauth_verifier"@,
            ) is None || spec_form_value(q@, "chat_id"@) is None,
        },
{
    let oauth_token = match form_value(q, "oauth_token") {
        Some(v) => v,
        None => {
            return None;
        },
    };
    let oauth_verifier = match form_value(q, "oauth_verifier") {
        Some(v) => v,
        None => {
            return None;
        },
    };
    let chat_id = match form_value(q, "chat_id") {
        Some(v) => v,
        None => {
            return None;
        },
    };
    Some(CallbackQuery { oauth_token, oauth_verifier, chat_id })
}

/// The callback address handed to the request-token call: it embeds the
/// chat identity so the webhook can route the verifier back.
pub open spec fn spec_callback_url(base: Seq<char>, chat_id: Seq<char>) -> Seq<char> {
    base + "/callback?chat_id="@ + chat_id
}

pub fn make_callback_url(base: &str, chat_id: &str) -> (r: String)
    ensures
        r@ == spec_callback_url(base@, chat_id@),
{
    let mut s = base.to_owned();
    s.append("/callback?chat_id=");
    s.append(chat_id);
    proof {
        assert(s@ =~= spec_callback_url(base@, chat_id@));
    }
    s
}

/// The address the user must visit to approve a request token.
pub open spec fn spec_authorize_url(token: Seq<char>) -> Seq<char> {
    "https://api.twitter.com/oauth/authenticate?oauth_token="@ + token
}

pub fn authorize_url(token: &str) -> (r: String)
    ensures
        r@ == spec_authorize_url(token@),
{
    let mut s = String::from_str("https://api.twitter.com/oauth/authenticate?oauth_token=");
    s.append(token);
    s
}

/// What a request-token answer means: a non-success status is
/// `UpstreamRejected`; a body without a decodable token, secret and
/// `oauth_callback_confirmed=true` is `ProtocolViolation`; otherwise
/// the temporary pair.
pub open spec fn spec_decode_request_token(success: bool, body: Seq<char>) -> Result<
    TokenPairView,
    CoreError,
> {
    if !success {
        Err(CoreError::UpstreamRejected)
    } else {
        match spec_form_value(body, "oauth_token"@) {
            None => Err(CoreError::ProtocolViolation),
            Some(t) => match spec_form_value(body, "oauth_token_secret"@) {
                None => Err(CoreError::ProtocolViolation),
                Some(s) => match spec_form_value(body, "oauth_callback_confirmed"@) {
                    None => Err(CoreError::ProtocolViolation),
                    Some(c) => if c == "true"@ {
                        Ok(TokenPairView { token: t, secret: s })
                    } else {
                        Err(CoreError::ProtocolViolation)
                    },
                },
            },
        }
    }
}

/// Decode the answer of the request-token call.
pub fn decode_request_token_response(reply: &UpstreamReply) -> (r: Result<
    TwitterTokenPair,
    CoreError,
>)
    ensures
        match r {
            Ok(p) => spec_decode_request_token(reply.success, reply.body@) == Ok::<
                TokenPairView,
                CoreError,
            >(p@),
            Err(e) => spec_decode_request_token(reply.success, reply.body@) == Err::<
                TokenPairView,
                CoreError,
            >(e),
        },
{
    if !reply.success {
        return Err(CoreError::UpstreamRejected);
    }
    let token = match form_value(reply.body.as_str(), "oauth_token") {
        Some(v) => v,
        None => {
            return Err(CoreError::ProtocolViolation);
        },
    };
    let secret = match form_value(reply.body.as_str(), "oauth_token_secret") {
        Some(v) => v,
        None => {
            return Err(CoreError::ProtocolViolation);
        },
    };
    let confirmed = match form_value(reply.body.as_str(), "oauth_callback_confirmed") {
        Some(v) => v,
        None => {
            return Err(CoreError::ProtocolViolation);
        },
    };
    if confirmed == String::from_str("true") {
        Ok(TwitterTokenPair { token, secret })
    } else {
        Err(CoreError::ProtocolViolation)
    }
}

/// What an access-token answer means: a non-success status is
/// `UpstreamRejected`; a body without a decodable token, secret,
/// numeric `user_id` and `screen_name` is `ProtocolViolation`;
/// otherwise the permanent pair.
pub open spec fn spec_decode_access_token(success: bool, body: Seq<char>) -> Result<
    TokenPairView,
    CoreError,
> {
    if !success {
        Err(CoreError::UpstreamRejected)
    } else {
        match spec_form_value(body, "oauth_token"@) {
            None => Err(CoreError::ProtocolViolation),
            Some(t) => match spec_form_value(body, "oauth_token_secret"@) {
                None => Err(CoreError::ProtocolViolation),
                Some(s) => match spec_form_value(body, "user_id"@) {
                    None => Err(CoreError::ProtocolViolation),
                    Some(id) => if spec_parse_u64(id) is None {
                        Err(CoreError::ProtocolViolation)
                    } else {
                        match spec_form_value(body, "screen_name"@) {
                            None => Err(CoreError::ProtocolViolation),
                            Some(_) => Ok(TokenPairView { token: t, secret: s }),
                        }
                    },
                },
            },
        }
    }
}

/// Decode the answer of the access-token exchange.
pub fn decode_access_token_response(reply: &UpstreamReply) -> (r: Result<
    TwitterTokenPair,
    CoreError,
>)
    ensures
        match r {
            Ok(p) => spec_decode_access_token(reply.success, reply.body@) == Ok::<
                TokenPairView,
                CoreError,
            >(p@),
            Err(e) => spec_decode_access_token(reply.success, reply.body@) == Err::<
                TokenPairView,
                CoreError,
            >(e),
        },
{
    if !reply.success {
        return Err(CoreError::UpstreamRejected);
    }
    let token = match form_value(reply.body.as_str(), "oauth_token") {
        Some(v) => v,
        None => {
            return Err(CoreError::ProtocolViolation);
        },
    };
    let secret = match form_value(reply.body.as_str(), "oauth_token_secret") {
        Some(v) => v,
        None => {
            return Err(CoreError::ProtocolViolation);
        },
    };
    let user_id = match form_value(reply.body.as_str(), "user_id") {
        Some(v) => v,
        None => {
            return Err(CoreError::ProtocolViolation);
        },
    };
    let digits = str_chars(user_id.as_str());
    if parse_u64(&digits).is_none() {
        return Err(CoreError::ProtocolViolation);
    }
    match form_value(reply.body.as_str(), "screen_name") {
        Some(_) => Ok(TwitterTokenPair { token, secret }),
        None => Err(CoreError::ProtocolViolation),
    }
}

/// Begin an authorization: read the request-token answer, remember the
/// temporary pair as pending, and hand back the address the user must
/// visit. On any failure the store is untouched.
pub fn begin_authorization(db: &mut InMemoryDB, reply: &UpstreamReply) -> (r: Result<
    String,
    CoreError,
>)
    requires
        old(db).wf(),
    ensures
        final(db).wf(),
        final(db).linked() == old(db).linked(),
        match spec_decode_request_token(reply.success, reply.body@) {
            Ok(p) => match r {
                Ok(url) => url@ == spec_authorize_url(p.token) && final(db).pending() == old(
                    db,
                ).pending().insert(p.token, p.secret),
                Err(_) => false,
            },
            Err(e) => r == Err::<String, CoreError>(e) && final(db).pending() == old(db).pending(),
        },
{
    match decode_request_token_response(reply) {
        Err(e) => Err(e),
        Ok(pair) => {
            let url = authorize_url(pair.token.as_str());
            db.put_pending(pair.token, pair.secret);
            Ok(url)
        },
    }
}

/// First half of completing an authorization: consume the pending
/// entry for the callback's request token. A token with no pending
/// entry (stale, replayed or forged) is `UnknownToken`, and a consumed
/// entry is gone: the same callback cannot be replayed.
pub fn complete_auth_begin(db: &mut InMemoryDB, oauth_token: &String) -> (r: Result<
    TwitterTokenPair,
    CoreError,
>)
    requires
        old(db).wf(),
    ensures
        final(db).wf(),
        final(db).linked() == old(db).linked(),
        if old(db).pending().dom().contains(oauth_token@) {
            r matches Ok(p) && p@.token == oauth_token@ && p@.secret == old(
                db,
            ).pending()[oauth_token@] && final(db).pending() == old(db).pending().remove(
                oauth_token@,
            )
        } else {
            r == Err::<TwitterTokenPair, CoreError>(CoreError::UnknownToken) && final(db).pending()
                == old(db).pending()
        },
{
    match db.take_pending(oauth_token) {
        Some(secret) => Ok(TwitterTokenPair { token: oauth_token.clone(), secret }),
        None => Err(CoreError::UnknownToken),
    }
}

/// Second half of completing an authorization: once the permanent pair
/// and the account's public identity are known, link the account to
/// the chat — replacing whatever the chat had — and word the
/// notification ("Succesfully" is the wording users of this system have
/// always seen, kept as it is). Re-authorization overwrites, it never
/// merges.
pub fn complete_auth_finish(
    db: &mut InMemoryDB,
    chat_id: String,
    token_pair: TwitterTokenPair,
    x_id: String,
    username: String,
) -> (r: String)
    requires
        old(db).wf(),
    ensures
        final(db).wf(),
        final(db).pending() == old(db).pending(),
        final(db).linked() == old(db).linked().insert(
            chat_id@,
            UserView { x_id: x_id@, username: username@, token_pair: token_pair@ },
        ),
        r@ == "Succesfully authenticated user: "@ + spec_profile_url(username@),
{
    let mut msg = String::from_str("Succesfully authenticated user: ");
    let p = profile_url(username.as_str());
    msg.append(p.as_str());
    let user = User { x_id, username, token_pair };
    db.put_linked(chat_id, user);
    msg
}

} // verus!
