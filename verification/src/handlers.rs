//! The command layer: the parsed chat commands, the rule that turns a
//! user-supplied tweet URL into a tweet reference, the construction of
//! the outbound payload, and the dispatch decision that resolves a
//! chat's credentials before any network work is allowed.
use vstd::prelude::*;
use vstd::string::StringExecFns;

use crate::db::{InMemoryDB, User};
use crate::errors::CoreError;
use crate::post::{profile_url, spec_profile_url, Tweet, TweetView};
use crate::text::{chars_to_string, copy_range, find_char, spec_find, str_chars};

verus! {

/// The account-management commands of the chat transport.
#[derive(Clone, Debug)]
pub enum BasicCommand {
    Help,
    Account,
    Logout,
    Auth,
    Prank(String),
}

/// The account actions: each carries the raw text after the command
/// word, exactly as the transport delivered it.
#[derive(Clone, Debug)]
pub enum TwitterCommand {
    Tweet(String),
    Like(String),
    Retweet(String),
    Reply(String),
    Quote(String),
}

/// The tweet reference named by a user-supplied URL: everything after
/// the last `/`, and the whole string when it has none, so a malformed
/// URL degrades to being used as the reference itself.
pub open spec fn spec_tweet_ref(url: Seq<char>) -> Seq<char>
    decreases url.len(),
{
    if url.len() == 0 {
        Seq::empty()
    } else if url.last() == '/' {
        Seq::empty()
    } else {
        spec_tweet_ref(url.drop_last()).push(url.last())
    }
}

/// Everything after the last `/` of `url`, or `url` itself when it has
/// none.
pub fn extract_tweet_id(url: &str) -> (r: String)
    ensures
        r@ == spec_tweet_ref(url@),
{
    let chars = str_chars(url);
    let n = chars.len();
    let mut start: usize = 0;
    let mut idx: usize = 0;
    while idx < n
        invariant
            chars@ == url@,
            n == chars@.len(),
            start <= idx <= n,
            spec_tweet_ref(url@.take(idx as int)) == url@.subrange(start as int, idx as int),
        decreases n - idx,
    {
        proof {
            assert(url@.take(idx as int + 1).drop_last() =~= url@.take(idx as int));
            assert(url@.take(idx as int + 1).last() == url@[idx as int]);
        }
        if chars[idx] == '/' {
            start = idx + 1;
            proof {
                assert(spec_tweet_ref(url@.take(idx as int + 1)) =~= url@.subrange(
                    start as int,
                    idx as int + 1,
                ));
            }
        } else {
            proof {
                assert(spec_tweet_ref(url@.take(idx as int + 1)) =~= url@.subrange(
                    start as int,
                    idx as int + 1,
                ));
            }
        }
        idx += 1;
    }
    proof {
        assert(url@.take(n as int) =~= url@);
    }
    let tail = copy_range(&chars, start, n);
    chars_to_string(&tail)
}

/// The raw text split at its first space: the part before it and the
/// part after it, or nothing when it has no space.
pub open spec fn spec_split_space(s: Seq<char>) -> Option<(Seq<char>, Seq<char>)> {
    match spec_find(s, ' ', 0) {
        None => None,
        Some(i) => Some((s.take(i), s.skip(i + 1))),
    }
}

/// The payload a command's raw text describes. A plain post keeps the
/// whole text; a reply or quote expects `<url> <text>` and turns the
/// URL into its target reference; like and retweet build no payload.
pub open spec fn spec_build_raw_tweet(
    cmd: TwitterCommand,
    raw_text: Seq<char>,
    media: Option<Seq<Seq<char>>>,
) -> Result<TweetView, CoreError> {
    match cmd {
        TwitterCommand::Tweet(_) => Ok(
            TweetView {
                text: raw_text,
                quote_tweet_id: None,
                reply_tweet_id: None,
                media_ids: media,
            },
        ),
        TwitterCommand::Reply(_) => match spec_split_space(raw_text) {
            None => Err(CoreError::MalformedCommand),
            Some(p) => Ok(
                TweetView {
                    text: p.1,
                    quote_tweet_id: None,
                    reply_tweet_id: Some(spec_tweet_ref(p.0)),
                    media_ids: media,
                },
            ),
        },
        TwitterCommand::Quote(_) => match spec_split_space(raw_text) {
            None => Err(CoreError::MalformedCommand),
            Some(p) => Ok(
                TweetView {
                    text: p.1,
                    quote_tweet_id: Some(spec_tweet_ref(p.0)),
                    reply_tweet_id: None,
                    media_ids: media,
                },
            ),
        },
        TwitterCommand::Like(_) => Err(CoreError::MalformedCommand),
        TwitterCommand::Retweet(_) => Err(CoreError::MalformedCommand),
    }
}

/// Build the outbound payload for a content-creating command, with the
/// already-uploaded media references attached, if any.
pub fn build_raw_tweet(cmd: TwitterCommand, raw_text: String, media: Option<Vec<String>>) -> (r:
    Result<Tweet, CoreError>)
    ensures
        match r {
            Ok(t) => spec_build_raw_tweet(cmd, raw_text@, media.deep_view()) == Ok::<
                TweetView,
                CoreError,
            >(t@),
            Err(e) => spec_build_raw_tweet(cmd, raw_text@, media.deep_view()) == Err::<
                TweetView,
                CoreError,
            >(e),
        },
{
    let is_reply = matches!(&cmd, TwitterCommand::Reply(_));
    match &cmd {
        TwitterCommand::Tweet(_) => {
            let mut t = Tweet::new(raw_text);
            if let Some(m) = media {
                t.set_media_ids(m);
            }
            Ok(t)
        },
        TwitterCommand::Reply(_) | TwitterCommand::Quote(_) => {
            let chars = str_chars(raw_text.as_str());
            match find_char(&chars, ' ', 0) {
                None => Err(CoreError::MalformedCommand),
                Some(i) => {
                    let n = chars.len();
                    assert(i < n);
                    let url_part = copy_range(&chars, 0, i);
                    let text_part = copy_range(&chars, i + 1, n);
                    let url_s = chars_to_string(&url_part);
                    let text_s = chars_to_string(&text_part);
                    proof {
                        assert(url_s@ =~= raw_text@.take(i as int));
                        assert(text_s@ =~= raw_text@.skip(i as int + 1));
                    }
                    let tweet_id = extract_tweet_id(url_s.as_str());
                    let mut t = Tweet::new(text_s);
                    if is_reply {
                        t.set_reply_tweet_id(tweet_id);
                    } else {
                        t.set_quote_tweet_id(tweet_id);
                    }
                    if let Some(m) = media {
                        t.set_media_ids(m);
                    }
                    Ok(t)
                },
            }
        },
        TwitterCommand::Like(_) => Err(CoreError::MalformedCommand),
        TwitterCommand::Retweet(_) => Err(CoreError::MalformedCommand),
    }
}

/// The outcome string a completed action is reported with.
pub open spec fn spec_command_message(cmd: TwitterCommand, url: Seq<char>) -> Seq<char> {
    match cmd {
        TwitterCommand::Tweet(_) => "Tweet sent: "@ + url,
        TwitterCommand::Like(_) => "Tweet liked"@,
        TwitterCommand::Retweet(_) => "Tweet retweeted"@,
        TwitterCommand::Reply(_) => "Reply sent: "@ + url,
        TwitterCommand::Quote(_) => "Quote tweet sent: "@ + url,
    }
}

/// The user-facing confirmation for a completed action; `url` is the
/// status address of the new content, where the action created any.
pub fn build_twitter_command_message(cmd: TwitterCommand, url: String) -> (r: String)
    ensures
        r@ == spec_command_message(cmd, url@),
{
    match cmd {
        TwitterCommand::Tweet(_) => {
            let mut s = String::from_str("Tweet sent: ");
            s.append(url.as_str());
            s
        },
        TwitterCommand::Like(_) => String::from_str("Tweet liked"),
        TwitterCommand::Retweet(_) => String::from_str("Tweet retweeted"),
        TwitterCommand::Reply(_) => {
            let mut s = String::from_str("Reply sent: ");
            s.append(url.as_str());
            s
        },
        TwitterCommand::Quote(_) => {
            let mut s = String::from_str("Quote tweet sent: ");
            s.append(url.as_str());
            s
        },
    }
}

/// What the dispatcher decides to do for a command, before any network
/// work: refuse an unauthenticated chat, engage (like or retweet) an
/// existing tweet, or publish new content.
pub enum ActionPlan {
    NotAuthenticated,
    Engage { user: User, tweet_id: String, retweet: bool },
    Publish { user: User },
}

/// Resolve the chat's credentials and decide the action. A chat with no
/// linked account gets `NotAuthenticated` and nothing else happens: no
/// plan that reaches the network is ever produced for it.
pub fn plan_action(db: &InMemoryDB, chat_id: &String, cmd: &TwitterCommand) -> (r: ActionPlan)
    requires
        db.wf(),
    ensures
        !db.linked().dom().contains(chat_id@) <==> r is NotAuthenticated,
        db.linked().dom().contains(chat_id@) ==> match cmd {
            TwitterCommand::Like(url) => r matches ActionPlan::Engage { user, tweet_id, retweet }
                && user@ == db.linked()[chat_id@] && tweet_id@ == spec_tweet_ref(url@) && retweet
                == false,
            TwitterCommand::Retweet(url) => r matches ActionPlan::Engage {
                user,
                tweet_id,
                retweet,
            } && user@ == db.linked()[chat_id@] && tweet_id@ == spec_tweet_ref(url@) && retweet
                == true,
            _ => r matches ActionPlan::Publish { user } && user@ == db.linked()[chat_id@],
        },
{
    match db.get_linked(chat_id) {
        None => ActionPlan::NotAuthenticated,
        Some(user) => match cmd {
            TwitterCommand::Like(url) => ActionPlan::Engage {
                user,
                tweet_id: extract_tweet_id(url.as_str()),
                retweet: false,
            },
            TwitterCommand::Retweet(url) => ActionPlan::Engage {
                user,
                tweet_id: extract_tweet_id(url.as_str()),
                retweet: true,
            },
            _ => ActionPlan::Publish { user },
        },
    }
}

/// What `/account` answers: the linked profile, or that none is linked.
pub open spec fn spec_account_message(db: InMemoryDB, chat: Seq<char>) -> Seq<char> {
    if db.linked().dom().contains(chat) {
        "You are authenticated as: "@ + spec_profile_url(db.linked()[chat].username)
    } else {
        "No Twitter account is currently logged in."@
    }
}

pub fn account_message(db: &InMemoryDB, chat_id: &String) -> (r: String)
    requires
        db.wf(),
    ensures
        r@ == spec_account_message(*db, chat_id@),
{
    match db.get_linked(chat_id) {
        None => String::from_str("No Twitter account is currently logged in."),
        Some(user) => {
            let mut s = String::from_str("You are authenticated as: ");
            let p = profile_url(user.username.as_str());
            s.append(p.as_str());
            s
        },
    }
}

/// What `/auth` answers when the chat is already linked; a chat that is
/// not linked gets no message and a fresh handshake is begun instead.
pub fn auth_prompt(db: &InMemoryDB, chat_id: &String) -> (r: Option<String>)
    requires
        db.wf(),
    ensures
        match r {
            Some(s) => db.linked().dom().contains(chat_id@) && s@ == "You are already authenticated as: "@
                + spec_profile_url(db.linked()[chat_id@].username),
            None => !db.linked().dom().contains(chat_id@),
        },
{
    match db.get_linked(chat_id) {
        None => None,
        Some(user) => {
            let mut s = String::from_str("You are already authenticated as: ");
            let p = profile_url(user.username.as_str());
            s.append(p.as_str());
            Some(s)
        },
    }
}

/// Explicit logout: the chat's linked account, if any, is removed; the
/// same farewell is sent either way.
pub fn logout(db: &mut InMemoryDB, chat_id: &String) -> (r: String)
    requires
        old(db).wf(),
    ensures
        final(db).wf(),
        final(db).linked() == old(db).linked().remove(chat_id@),
        final(db).pending() == old(db).pending(),
        r@ == "Successfully logged out"@,
{
    let _ = db.remove_linked(chat_id);
    proof {
        if !old(db).linked().dom().contains(chat_id@) {
            assert(old(db).linked().remove(chat_id@) =~= old(db).linked());
        }
    }
    String::from_str("Successfully logged out")
}

} // verus!

