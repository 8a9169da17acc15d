//! The dispatch layer: tweet references, payload building, outcome
//! messages, and the decision made before any network work.
use teleport::auth::TwitterTokenPair;
use teleport::db::{InMemoryDB, User};
use teleport::errors::CoreError;
use teleport::handlers::{
    account_message, auth_prompt, build_raw_tweet, build_twitter_command_message,
    extract_tweet_id, logout, plan_action, ActionPlan, TwitterCommand,
};
use teleport::post::{engage_url, status_url, Tweet};

fn linked_db(chat: &str) -> InMemoryDB {
    let mut db = InMemoryDB::default();
    db.put_linked(
        chat.to_string(),
        User {
            x_id: "555".to_string(),
            username: "alice".to_string(),
            token_pair: TwitterTokenPair {
                token: "tok".to_string(),
                secret: "sec".to_string(),
            },
        },
    );
    db
}

#[test]
fn tweet_ref_takes_final_path_segment() {
    assert_eq!(extract_tweet_id("https://x.com/user/status/42"), "42");
}

#[test]
fn tweet_ref_without_slash_is_the_whole_string() {
    assert_eq!(extract_tweet_id("42"), "42");
}

#[test]
fn tweet_ref_edge_cases() {
    assert_eq!(extract_tweet_id(""), "");
    assert_eq!(extract_tweet_id("abc/"), "");
    assert_eq!(extract_tweet_id("/x"), "x");
}

#[test]
fn build_plain_tweet_keeps_whole_text() {
    let t = build_raw_tweet(
        TwitterCommand::Tweet(String::new()),
        "hello world".to_string(),
        None,
    )
    .expect("plain tweet must build");
    assert_eq!(t.text, "hello world");
    assert!(t.quote_tweet_id.is_none());
    assert!(t.reply_tweet_id.is_none());
    assert!(t.media_ids.is_none());
}

#[test]
fn build_reply_splits_url_and_text() {
    let t = build_raw_tweet(
        TwitterCommand::Reply(String::new()),
        "https://x.com/a/status/77 nice one".to_string(),
        None,
    )
    .expect("reply must build");
    assert_eq!(t.text, "nice one");
    assert_eq!(t.reply_tweet_id.as_deref(), Some("77"));
    assert!(t.quote_tweet_id.is_none());
}

#[test]
fn build_quote_splits_url_and_text() {
    let t = build_raw_tweet(
        TwitterCommand::Quote(String::new()),
        "https://x.com/a/status/88 so true".to_string(),
        Some(vec!["m1".to_string()]),
    )
    .expect("quote must build");
    assert_eq!(t.text, "so true");
    assert_eq!(t.quote_tweet_id.as_deref(), Some("88"));
    assert_eq!(t.media_ids, Some(vec!["m1".to_string()]));
}

#[test]
fn build_reply_without_space_is_malformed() {
    let r = build_raw_tweet(
        TwitterCommand::Reply(String::new()),
        "https://x.com/a/status/77".to_string(),
        None,
    );
    assert_eq!(r.err(), Some(CoreError::MalformedCommand));
}

#[test]
fn build_like_is_malformed() {
    let r = build_raw_tweet(TwitterCommand::Like(String::new()), "x".to_string(), None);
    assert_eq!(r.err(), Some(CoreError::MalformedCommand));
}

#[test]
fn command_messages_are_exact() {
    let url = "https://x.com/alice/status/9".to_string();
    assert_eq!(
        build_twitter_command_message(TwitterCommand::Tweet(String::new()), url.clone()),
        "Tweet sent: https://x.com/alice/status/9"
    );
    assert_eq!(
        build_twitter_command_message(TwitterCommand::Like(String::new()), url.clone()),
        "Tweet liked"
    );
    assert_eq!(
        build_twitter_command_message(TwitterCommand::Retweet(String::new()), url.clone()),
        "Tweet retweeted"
    );
    assert_eq!(
        build_twitter_command_message(TwitterCommand::Reply(String::new()), url.clone()),
        "Reply sent: https://x.com/alice/status/9"
    );
    assert_eq!(
        build_twitter_command_message(TwitterCommand::Quote(String::new()), url),
        "Quote tweet sent: https://x.com/alice/status/9"
    );
}

#[test]
fn urls_are_exact() {
    assert_eq!(status_url("alice", "9"), "https://x.com/alice/status/9");
    assert_eq!(
        engage_url("555", "77", false),
        "https://api.twitter.com/2/users/555/likes?tweet_id=77"
    );
    assert_eq!(
        engage_url("555", "77", true),
        "https://api.twitter.com/2/users/555/retweets?tweet_id=77"
    );
}

#[test]
fn unauthenticated_like_gets_not_authenticated_and_touches_nothing() {
    let db = InMemoryDB::default();
    let plan = plan_action(
        &db,
        &"200".to_string(),
        &TwitterCommand::Like("https://x.com/a/status/77".to_string()),
    );
    assert!(matches!(plan, ActionPlan::NotAuthenticated));
    let (pending, linked) = db.snapshot();
    assert!(pending.is_empty());
    assert!(linked.is_empty());
}

#[test]
fn authenticated_like_plans_an_engage() {
    let db = linked_db("100");
    let plan = plan_action(
        &db,
        &"100".to_string(),
        &TwitterCommand::Like("https://x.com/a/status/77".to_string()),
    );
    match plan {
        ActionPlan::Engage { user, tweet_id, retweet } => {
            assert_eq!(user.x_id, "555");
            assert_eq!(tweet_id, "77");
            assert!(!retweet);
        }
        _ => panic!("expected an engage plan"),
    }
}

#[test]
fn authenticated_retweet_plans_a_retweet() {
    let db = linked_db("100");
    let plan = plan_action(&db, &"100".to_string(), &TwitterCommand::Retweet("9/8".to_string()));
    match plan {
        ActionPlan::Engage { tweet_id, retweet, .. } => {
            assert_eq!(tweet_id, "8");
            assert!(retweet);
        }
        _ => panic!("expected an engage plan"),
    }
}

#[test]
fn authenticated_tweet_plans_a_publish() {
    let db = linked_db("100");
    let plan = plan_action(&db, &"100".to_string(), &TwitterCommand::Tweet("hi".to_string()));
    match plan {
        ActionPlan::Publish { user } => assert_eq!(user.username, "alice"),
        _ => panic!("expected a publish plan"),
    }
}

#[test]
fn account_message_reports_the_linked_profile() {
    let db = linked_db("100");
    assert_eq!(
        account_message(&db, &"100".to_string()),
        "You are authenticated as: https://x.com/alice"
    );
    assert_eq!(
        account_message(&db, &"200".to_string()),
        "No Twitter account is currently logged in."
    );
}

#[test]
fn auth_prompt_only_for_linked_chats() {
    let db = linked_db("100");
    assert_eq!(
        auth_prompt(&db, &"100".to_string()),
        Some("You are already authenticated as: https://x.com/alice".to_string())
    );
    assert_eq!(auth_prompt(&db, &"200".to_string()), None);
}

#[test]
fn logout_unlinks_and_says_goodbye() {
    let mut db = linked_db("100");
    assert_eq!(logout(&mut db, &"100".to_string()), "Successfully logged out");
    assert!(db.get_linked(&"100".to_string()).is_none());
    assert_eq!(logout(&mut db, &"100".to_string()), "Successfully logged out");
}

#[test]
fn tweet_json_plain() {
    let t = Tweet::new("hello".to_string());
    assert_eq!(t.to_json(), "{\"text\":\"hello\"}");
}

#[test]
fn tweet_json_reply_and_media() {
    let mut t = Tweet::new("hi".to_string());
    t.set_reply_tweet_id("77".to_string());
    t.set_media_ids(vec!["m1".to_string(), "m2".to_string()]);
    assert_eq!(
        t.to_json(),
        "{\"text\":\"hi\",\"reply\":{\"in_reply_to_tweet_id\":\"77\"},\"media\":{\"media_ids\":[\"m1\",\"m2\"]}}"
    );
}

#[test]
fn tweet_json_quote() {
    let mut t = Tweet::new("q".to_string());
    t.set_quote_tweet_id("88".to_string());
    assert_eq!(t.to_json(), "{\"text\":\"q\",\"quote_tweet_id\":\"88\"}");
}

#[test]
fn tweet_json_escapes_specials() {
    let t = Tweet::new("a\"b\\c\nd\u{1}".to_string());
    assert_eq!(t.to_json(), "{\"text\":\"a\\\"b\\\\c\\nd\\u0001\"}");
}

#[test]
fn tweet_json_is_what_serde_reads_back() {
    let mut t = Tweet::new("hi \"there\"".to_string());
    t.set_quote_tweet_id("88".to_string());
    let parsed: serde_json::Value = serde_json::from_str(&t.to_json()).expect("valid JSON");
    assert_eq!(parsed["text"], "hi \"there\"");
    assert_eq!(parsed["quote_tweet_id"], "88");
}
