//! The OAuth1 handshake engine: form decoding, the two token-endpoint
//! answers, the callback query, and the full link-then-tweet scenario.
use teleport::auth::{
    authorize_url, begin_authorization, complete_auth_begin, complete_auth_finish,
    decode_access_token_response, decode_request_token_response, make_callback_url,
    parse_callback_query, UpstreamReply,
};
use teleport::builder::TwitterBuilder;
use teleport::db::InMemoryDB;
use teleport::errors::CoreError;
use teleport::handlers::{
    build_raw_tweet, build_twitter_command_message, plan_action, ActionPlan, TwitterCommand,
};
use teleport::jsonio::{extract_media_id, extract_tweet_response_id, extract_user_identity};
use teleport::post::status_url;
use teleport::urlenc::form_value;

fn reply(success: bool, body: &str) -> UpstreamReply {
    UpstreamReply { success, body: body.to_string() }
}

#[test]
fn form_value_finds_and_decodes() {
    assert_eq!(form_value("a=1&b=2", "b"), Some("2".to_string()));
    assert_eq!(form_value("a=1&b=2", "a"), Some("1".to_string()));
    assert_eq!(form_value("a=1&b=2", "c"), None);
    assert_eq!(form_value("key=%41%2Bb+c", "key"), Some("A+b c".to_string()));
    assert_eq!(form_value("a", "a"), Some("".to_string()));
    assert_eq!(form_value("bad=%G1", "bad"), None);
    assert_eq!(form_value("bad=%4", "bad"), None);
    assert_eq!(form_value("first=1&first=2", "first"), Some("1".to_string()));
}

#[test]
fn urls_of_the_handshake_are_exact() {
    assert_eq!(
        make_callback_url("https://example.org", "100"),
        "https://example.org/callback?chat_id=100"
    );
    assert_eq!(
        authorize_url("tok"),
        "https://api.twitter.com/oauth/authenticate?oauth_token=tok"
    );
}

#[test]
fn request_token_answer_decodes() {
    let r = decode_request_token_response(&reply(
        true,
        "oauth_token=abc&oauth_token_secret=def&oauth_callback_confirmed=true",
    ))
    .expect("confirmed answer must decode");
    assert_eq!(r.token, "abc");
    assert_eq!(r.secret, "def");
}

#[test]
fn request_token_errors_are_classified() {
    let ok_body = "oauth_token=abc&oauth_token_secret=def&oauth_callback_confirmed=true";
    assert_eq!(
        decode_request_token_response(&reply(false, ok_body)).err(),
        Some(CoreError::UpstreamRejected)
    );
    assert_eq!(
        decode_request_token_response(&reply(
            true,
            "oauth_token=abc&oauth_token_secret=def&oauth_callback_confirmed=false"
        ))
        .err(),
        Some(CoreError::ProtocolViolation)
    );
    assert_eq!(
        decode_request_token_response(&reply(true, "oauth_token=abc")).err(),
        Some(CoreError::ProtocolViolation)
    );
}

#[test]
fn access_token_answer_decodes() {
    let r = decode_access_token_response(&reply(
        true,
        "oauth_token=perm&oauth_token_secret=psec&user_id=555&screen_name=alice",
    ))
    .expect("complete answer must decode");
    assert_eq!(r.token, "perm");
    assert_eq!(r.secret, "psec");
}

#[test]
fn access_token_errors_are_classified() {
    assert_eq!(
        decode_access_token_response(&reply(
            true,
            "oauth_token=perm&oauth_token_secret=psec&user_id=five&screen_name=alice"
        ))
        .err(),
        Some(CoreError::ProtocolViolation)
    );
    assert_eq!(
        decode_access_token_response(&reply(
            true,
            "oauth_token=perm&oauth_token_secret=psec&user_id=555"
        ))
        .err(),
        Some(CoreError::ProtocolViolation)
    );
    assert_eq!(
        decode_access_token_response(&reply(false, "")).err(),
        Some(CoreError::UpstreamRejected)
    );
}

#[test]
fn callback_query_parses_all_three_fields() {
    let q = parse_callback_query("oauth_token=abc&oauth_verifier=ver&chat_id=100")
        .expect("complete query must parse");
    assert_eq!(q.oauth_token, "abc");
    assert_eq!(q.oauth_verifier, "ver");
    assert_eq!(q.chat_id, "100");
    assert!(parse_callback_query("oauth_token=abc&chat_id=100").is_none());
}

#[test]
fn begin_authorization_stores_pending_and_builds_url() {
    let mut db = InMemoryDB::default();
    let url = begin_authorization(
        &mut db,
        &reply(true, "oauth_token=abc&oauth_token_secret=def&oauth_callback_confirmed=true"),
    )
    .expect("confirmed answer must begin an authorization");
    assert_eq!(url, "https://api.twitter.com/oauth/authenticate?oauth_token=abc");
    assert_eq!(db.take_pending(&"abc".to_string()), Some("def".to_string()));
}

#[test]
fn begin_authorization_leaves_store_alone_on_failure() {
    let mut db = InMemoryDB::default();
    let r = begin_authorization(&mut db, &reply(false, ""));
    assert_eq!(r.err(), Some(CoreError::UpstreamRejected));
    let (pending, linked) = db.snapshot();
    assert!(pending.is_empty());
    assert!(linked.is_empty());
}

#[test]
fn unknown_callback_token_is_rejected() {
    let mut db = InMemoryDB::default();
    let r = complete_auth_begin(&mut db, &"forged".to_string());
    assert_eq!(r.err(), Some(CoreError::UnknownToken));
}

#[test]
fn upstream_answer_extraction() {
    assert_eq!(
        extract_tweet_response_id(&reply(true, "{\"data\":{\"id\":\"999\"}}")),
        Ok("999".to_string())
    );
    assert_eq!(
        extract_tweet_response_id(&reply(true, "{\"data\":{}}")).err(),
        Some(CoreError::ProtocolViolation)
    );
    assert_eq!(
        extract_tweet_response_id(&reply(true, "not json")).err(),
        Some(CoreError::ProtocolViolation)
    );
    assert_eq!(
        extract_tweet_response_id(&reply(false, "")).err(),
        Some(CoreError::UpstreamRejected)
    );
    assert_eq!(
        extract_media_id(&reply(true, "{\"media_id_string\":\"m1\"}")),
        Ok("m1".to_string())
    );
    assert_eq!(extract_media_id(&reply(true, "{}")).err(), Some(CoreError::MediaUploadFailed));
    assert_eq!(extract_media_id(&reply(false, "{}")).err(), Some(CoreError::MediaUploadFailed));
    assert_eq!(
        extract_user_identity(&reply(true, "{\"data\":{\"id\":\"555\",\"username\":\"alice\"}}")),
        Ok(("555".to_string(), "alice".to_string()))
    );
    assert_eq!(
        extract_user_identity(&reply(true, "{\"data\":{\"id\":\"555\"}}")).err(),
        Some(CoreError::ProtocolViolation)
    );
}

#[test]
fn signed_headers_have_the_oauth_shape() {
    let builder = TwitterBuilder::new("ck".to_string(), "cs".to_string());
    let h = builder.request_token_header(
        "https://example.org/callback?chat_id=100",
        "https://api.twitter.com/oauth/request_token",
    );
    assert!(h.starts_with("OAuth "));
    assert!(h.ends_with("\""));
    assert!(h.contains("oauth_consumer_key=\""));
    assert!(h.contains("oauth_nonce=\""));
    assert!(h.contains("oauth_signature_method=\"HMAC-SHA1\""));
    assert!(h.contains("oauth_timestamp=\""));
    assert!(h.contains("oauth_signature=\""));
    assert!(h.contains("oauth_callback=\""));
    let client = builder.with_auth(teleport::auth::TwitterTokenPair {
        token: "tok".to_string(),
        secret: "sec".to_string(),
    });
    let h2 = client.auth_header("POST", "https://api.twitter.com/2/tweets");
    assert!(h2.starts_with("OAuth "));
    assert!(h2.contains("oauth_token=\""));
    assert!(h2.contains("oauth_signature_method=\"HMAC-SHA1\""));
    let h3 = client.auth_header_with_param(
        "POST",
        "https://api.twitter.com/2/users/555/likes",
        "tweet_id",
        "77",
    );
    assert!(h3.starts_with("OAuth "));
    assert!(h3.contains("oauth_signature="));
}

#[test]
fn full_link_then_tweet_scenario() {
    let mut db = InMemoryDB::default();

    // Chat "100" asks to authenticate; the request-token call answers.
    let url = begin_authorization(
        &mut db,
        &reply(
            true,
            "oauth_token=req-1&oauth_token_secret=req-s&oauth_callback_confirmed=true",
        ),
    )
    .expect("authorization must begin");
    assert!(url.contains("oauth_token=req-1"));

    // The webhook later delivers that token with a verifier for "100".
    let q = parse_callback_query("oauth_token=req-1&oauth_verifier=ver-9&chat_id=100")
        .expect("callback query must parse");
    let temp = complete_auth_begin(&mut db, &q.oauth_token).expect("token must be pending");
    assert_eq!(temp.token, "req-1");
    assert_eq!(temp.secret, "req-s");

    // The exchange and the identity lookup answer.
    let perm = decode_access_token_response(&reply(
        true,
        "oauth_token=perm&oauth_token_secret=psec&user_id=555&screen_name=alice",
    ))
    .expect("exchange must decode");
    let (x_id, username) = extract_user_identity(&reply(
        true,
        "{\"data\":{\"id\":\"555\",\"username\":\"alice\"}}",
    ))
    .expect("identity must decode");
    let msg = complete_auth_finish(&mut db, q.chat_id, perm, x_id, username);
    assert_eq!(msg, "Succesfully authenticated user: https://x.com/alice");

    // The link is visible at once, and the same callback cannot replay.
    let linked = db.get_linked(&"100".to_string()).expect("chat 100 must now be linked");
    assert_eq!(linked.username, "alice");
    assert_eq!(complete_auth_begin(&mut db, &"req-1".to_string()).err(), Some(CoreError::UnknownToken));

    // Chat "100" sends a tweet; the dispatcher resolves and publishes.
    let cmd = TwitterCommand::Tweet("hello".to_string());
    let plan = plan_action(&db, &"100".to_string(), &cmd);
    let user = match plan {
        ActionPlan::Publish { user } => user,
        _ => panic!("an authenticated tweet must be published"),
    };
    let tweet = build_raw_tweet(cmd.clone(), "hello".to_string(), None).expect("tweet must build");
    assert_eq!(tweet.to_json(), "{\"text\":\"hello\"}");
    let id = extract_tweet_response_id(&reply(true, "{\"data\":{\"id\":\"999\"}}"))
        .expect("answer must carry the new id");
    let out = build_twitter_command_message(cmd, status_url(&user.username, &id));
    assert_eq!(out, "Tweet sent: https://x.com/alice/status/999");
    assert!(out.contains("999"));
}
