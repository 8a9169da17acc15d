//! Decoding of the JSON response bodies through `serde_json`. What each
//! body yields is a function of the body alone, so it is given a name
//! (`spec_tweet_id_of`, `spec_media_id_of`, `spec_user_identity_of`)
//! that one trusted wrapper each applies; the public extractors then
//! return `Ok` exactly when the status was a success and the named
//! result exists, and classify every failure.
use vstd::prelude::*;

use crate::auth::UpstreamReply;
use crate::errors::CoreError;

verus! {

/// The string at `data.id` of the JSON document `body`, when `body`
/// parses as JSON and has that shape.
pub uninterp spec fn spec_tweet_id_of(body: Seq<char>) -> Option<Seq<char>>;

/// The string at `media_id_string` of the JSON document `body`, when
/// `body` parses as JSON and has that shape.
pub uninterp spec fn spec_media_id_of(body: Seq<char>) -> Option<Seq<char>>;

/// The strings at `data.id` and `data.username` of the JSON document
/// `body`, when `body` parses as JSON and has that shape.
pub uninterp spec fn spec_user_identity_of(body: Seq<char>) -> Option<(Seq<char>, Seq<char>)>;

/// Relies on serde_json (from_str, Value::get, Value::as_str): the
/// string at `data.id` of the parsed body. The result depends on the
/// body alone; parse failures come back as `Err`, never by panic.
#[verifier::external_body]
fn tweet_id_of(body: &str) -> (r: Option<String>)
    ensures
        match r {
            Some(s) => spec_tweet_id_of(body@) == Some(s@),
            None => spec_tweet_id_of(body@) is None,
        },
{
    let parsed: serde_json::Value = serde_json::from_str(body).ok()?;
    Some(parsed.get("data")?.get("id")?.as_str()?.to_owned())
}

/// Relies on serde_json (from_str, Value::get, Value::as_str): the
/// string at `media_id_string` of the parsed body. The result depends
/// on the body alone.
#[verifier::external_body]
fn media_id_of(body: &str) -> (r: Option<String>)
    ensures
        match r {
            Some(s) => spec_media_id_of(body@) == Some(s@),
            None => spec_media_id_of(body@) is None,
        },
{
    let parsed: serde_json::Value = serde_json::from_str(body).ok()?;
    Some(parsed.get("media_id_string")?.as_str()?.to_owned())
}

/// Relies on serde_json (from_str, Value::get, Value::as_str): the
/// strings at `data.id` and `data.username` of the parsed body. The
/// result depends on the body alone.
#[verifier::external_body]
fn user_identity_of(body: &str) -> (r: Option<(String, String)>)
    ensures
        match r {
            Some(p) => spec_user_identity_of(body@) == Some((p.0@, p.1@)),
            None => spec_user_identity_of(body@) is None,
        },
{
    let parsed: serde_json::Value = serde_json::from_str(body).ok()?;
    let data = parsed.get("data")?;
    let id = data.get("id")?.as_str()?.to_owned();
    let username = data.get("username")?.as_str()?.to_owned();
    Some((id, username))
}

/// The new content identifier in a content-creation answer: exactly the
/// string at `data.id`, returned iff the status was a success and the
/// body has that shape. A non-success status is `UpstreamRejected`; a
/// success whose body lacks the shape is `ProtocolViolation`.
pub fn extract_tweet_response_id(reply: &UpstreamReply) -> (r: Result<String, CoreError>)
    ensures
        !reply.success ==> r == Err::<String, CoreError>(CoreError::UpstreamRejected),
        reply.success ==> match spec_tweet_id_of(reply.body@) {
            Some(id) => match r {
                Ok(s) => s@ == id,
                Err(_) => false,
            },
            None => r == Err::<String, CoreError>(CoreError::ProtocolViolation),
        },
{
    if !reply.success {
        return Err(CoreError::UpstreamRejected);
    }
    match tweet_id_of(reply.body.as_str()) {
        Some(id) => Ok(id),
        None => Err(CoreError::ProtocolViolation),
    }
}

/// The media reference in a media-upload answer: exactly the string at
/// `media_id_string`, returned iff the status was a success and the
/// body has that shape. Any failure of the upload — a non-success
/// status or a body without the shape — is `MediaUploadFailed`.
pub fn extract_media_id(reply: &UpstreamReply) -> (r: Result<String, CoreError>)
    ensures
        !reply.success ==> r == Err::<String, CoreError>(CoreError::MediaUploadFailed),
        reply.success ==> match spec_media_id_of(reply.body@) {
            Some(id) => match r {
                Ok(s) => s@ == id,
                Err(_) => false,
            },
            None => r == Err::<String, CoreError>(CoreError::MediaUploadFailed),
        },
{
    if !reply.success {
        return Err(CoreError::MediaUploadFailed);
    }
    match media_id_of(reply.body.as_str()) {
        Some(id) => Ok(id),
        None => Err(CoreError::MediaUploadFailed),
    }
}

/// The linked account's public identity in a user-lookup answer:
/// exactly the strings at `data.id` and `data.username`, returned iff
/// the status was a success and the body has that shape. A non-success
/// status is `UpstreamRejected`; a success whose body lacks the shape
/// is `ProtocolViolation`.
pub fn extract_user_identity(reply: &UpstreamReply) -> (r: Result<(String, String), CoreError>)
    ensures
        !reply.success ==> r == Err::<(String, String), CoreError>(CoreError::UpstreamRejected),
        reply.success ==> match spec_user_identity_of(reply.body@) {
            Some(identity) => match r {
                Ok(p) => p.0@ == identity.0 && p.1@ == identity.1,
                Err(_) => false,
            },
            None => r == Err::<(String, String), CoreError>(CoreError::ProtocolViolation),
        },
{
    if !reply.success {
        return Err(CoreError::UpstreamRejected);
    }
    match user_identity_of(reply.body.as_str()) {
        Some(identity) => Ok(identity),
        None => Err(CoreError::ProtocolViolation),
    }
}

} // verus!
