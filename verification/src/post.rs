//! The outbound action payload: the tweet body with its optional quote
//! target, reply target and media list, and the endpoint addresses an
//! action is sent to. Serialization to JSON lives in `tweet_json`.
use vstd::prelude::*;
use vstd::string::StringExecFns;

use crate::text::{chars_to_string, str_chars};

verus! {

/// A content-creation payload: text and exactly one of nothing (plain
/// post), a reply target, or a quote target, plus optional media.
#[derive(Debug)]
pub struct Tweet {
    pub text: String,
    pub quote_tweet_id: Option<String>,
    pub reply_tweet_id: Option<String>,
    pub media_ids: Option<Vec<String>>,
}

pub ghost struct TweetView {
    pub text: Seq<char>,
    pub quote_tweet_id: Option<Seq<char>>,
    pub reply_tweet_id: Option<Seq<char>>,
    pub media_ids: Option<Seq<Seq<char>>>,
}

impl View for Tweet {
    type V = TweetView;

    open spec fn view(&self) -> TweetView {
        TweetView {
            text: self.text@,
            quote_tweet_id: self.quote_tweet_id.deep_view(),
            reply_tweet_id: self.reply_tweet_id.deep_view(),
            media_ids: self.media_ids.deep_view(),
        }
    }
}

impl Tweet {
    /// A plain post: only text.
    pub fn new(text: String) -> (r: Tweet)
        ensures
            r@.text == text@,
            r@.quote_tweet_id is None,
            r@.reply_tweet_id is None,
            r@.media_ids is None,
    {
        Tweet { text, quote_tweet_id: None, reply_tweet_id: None, media_ids: None }
    }

    /// Make this payload a reply to the given tweet.
    pub fn set_reply_tweet_id(&mut self, tweet_id: String)
        ensures
            final(self)@ == (TweetView { reply_tweet_id: Some(tweet_id@), ..old(self)@ }),
    {
        self.reply_tweet_id = Some(tweet_id);
    }

    /// Make this payload a quote of the given tweet.
    pub fn set_quote_tweet_id(&mut self, tweet_id: String)
        ensures
            final(self)@ == (TweetView { quote_tweet_id: Some(tweet_id@), ..old(self)@ }),
    {
        self.quote_tweet_id = Some(tweet_id);
    }

    /// Attach the uploaded media references.
    pub fn set_media_ids(&mut self, media_ids: Vec<String>)
        ensures
            final(self)@ == (TweetView { media_ids: Some(media_ids.deep_view()), ..old(self)@ }),
    {
        self.media_ids = Some(media_ids);
    }
}

/// One hexadecimal digit, lower case.
pub open spec fn spec_hex_digit(v: int) -> char {
    if v < 10 {
        ((('0' as u32) + v) as u8) as char
    } else {
        ((('a' as u32) + v - 10) as u8) as char
    }
}

/// How one character is written inside a JSON string literal.
pub open spec fn spec_json_escape_char(c: char) -> Seq<char> {
    if c == '"' {
        seq!['\\', '"']
    } else if c == '\\' {
        seq!['\\', '\\']
    } else if c == '\n' {
        seq!['\\', 'n']
    } else if c == '\r' {
        seq!['\\', 'r']
    } else if c == '\t' {
        seq!['\\', 't']
    } else if (c as u32) < 32 {
        seq![
            '\\',
            'u',
            '0',
            '0',
            spec_hex_digit((c as u32) as int / 16),
            spec_hex_digit((c as u32) as int % 16),
        ]
    } else {
        seq![c]
    }
}

/// The body of a JSON string literal for `s`.
pub open spec fn spec_json_escape(s: Seq<char>) -> Seq<char>
    decreases s.len(),
{
    if s.len() == 0 {
        Seq::empty()
    } else {
        spec_json_escape(s.drop_last()) + spec_json_escape_char(s.last())
    }
}

/// The JSON string literal for `s`, quotes included.
pub open spec fn spec_json_string(s: Seq<char>) -> Seq<char> {
    seq!['"'] + spec_json_escape(s) + seq!['"']
}

/// A comma-separated list of JSON string literals.
pub open spec fn spec_json_str_list(items: Seq<Seq<char>>) -> Seq<char>
    decreases items.len(),
{
    if items.len() == 0 {
        Seq::empty()
    } else if items.len() == 1 {
        spec_json_string(items[0])
    } else {
        spec_json_str_list(items.drop_last()) + ","@ + spec_json_string(items.last())
    }
}

/// The JSON document a payload is sent as: the text, then whichever of
/// the quote target, reply target and media list it carries, in that
/// order, each omitted when absent.
pub open spec fn spec_tweet_json(t: TweetView) -> Seq<char> {
    "{\"text\":"@ + spec_json_string(t.text) + (match t.quote_tweet_id {
        Some(q) => ",\"quote_tweet_id\":"@ + spec_json_string(q),
        None => Seq::empty(),
    }) + (match t.reply_tweet_id {
        Some(rid) => ",\"reply\":{\"in_reply_to_tweet_id\":"@ + spec_json_string(rid) + "}"@,
        None => Seq::empty(),
    }) + (match t.media_ids {
        Some(ids) => ",\"media\":{\"media_ids\":["@ + spec_json_str_list(ids) + "]}"@,
        None => Seq::empty(),
    }) + "}"@
}

/// How one character is written inside a JSON string literal.
fn json_escape_char(c: char) -> (r: Vec<char>)
    ensures
        r@ == spec_json_escape_char(c),
{
    let mut out: Vec<char> = Vec::new();
    if c == '"' {
        out.push('\\');
        out.push('"');
    } else if c == '\\' {
        out.push('\\');
        out.push('\\');
    } else if c == '\n' {
        out.push('\\');
        out.push('n');
    } else if c == '\r' {
        out.push('\\');
        out.push('r');
    } else if c == '\t' {
        out.push('\\');
        out.push('t');
    } else if (c as u32) < 32 {
        let v = c as u32;
        let hi = v / 16;
        let lo = v % 16;
        out.push('\\');
        out.push('u');
        out.push('0');
        out.push('0');
        if hi < 10 {
            out.push(((('0' as u32) + hi) as u8) as char);
        } else {
            out.push(((('a' as u32) + hi - 10) as u8) as char);
        }
        if lo < 10 {
            out.push(((('0' as u32) + lo) as u8) as char);
        } else {
            out.push(((('a' as u32) + lo - 10) as u8) as char);
        }
    } else {
        out.push(c);
    }
    proof {
        assert(out@ =~= spec_json_escape_char(c));
    }
    out
}

/// The JSON string literal for `s`, quotes included.
fn json_string(s: &str) -> (r: String)
    ensures
        r@ == spec_json_string(s@),
{
    let chars = str_chars(s);
    let n = chars.len();
    let mut out: Vec<char> = Vec::new();
    out.push('"');
    let mut i: usize = 0;
    while i < n
        invariant
            i <= n,
            n == chars@.len(),
            chars@ == s@,
            out@ == seq!['"'] + spec_json_escape(s@.take(i as int)),
        decreases n - i,
    {
        let mut piece = json_escape_char(chars[i]);
        let ghost prev = out@;
        out.append(&mut piece);
        i += 1;
        proof {
            assert(s@.take(i as int).drop_last() =~= s@.take(i as int - 1));
            assert(s@.take(i as int).last() == s@[i as int - 1]);
            assert(out@ =~= seq!['"'] + spec_json_escape(s@.take(i as int)));
        }
    }
    out.push('"');
    proof {
        assert(s@.take(n as int) =~= s@);
        assert(out@ =~= spec_json_string(s@));
    }
    chars_to_string(&out)
}

impl Tweet {
    /// The JSON document this payload is sent as.
    pub fn to_json(&self) -> (r: String)
        ensures
            r@ == spec_tweet_json(self@),
    {
        let mut out = String::from_str("{\"text\":");
        let text_lit = json_string(self.text.as_str());
        out.append(text_lit.as_str());
        match &self.quote_tweet_id {
            Some(q) => {
                out.append(",\"quote_tweet_id\":");
                let lit = json_string(q.as_str());
                out.append(lit.as_str());
            },
            None => {},
        }
        match &self.reply_tweet_id {
            Some(rid) => {
                out.append(",\"reply\":{\"in_reply_to_tweet_id\":");
                let lit = json_string(rid.as_str());
                out.append(lit.as_str());
                out.append("}");
            },
            None => {},
        }
        match &self.media_ids {
            Some(ids) => {
                out.append(",\"media\":{\"media_ids\":[");
                let ghost prefix = out@;
                let n = ids.len();
                let mut i: usize = 0;
                while i < n
                    invariant
                        i <= n,
                        n == ids@.len(),
                        out@ == prefix + spec_json_str_list(ids.deep_view().take(i as int)) + (
                        if 0 < i < n {
                            ","@
                        } else {
                            Seq::<char>::empty()
                        }),
                    decreases n - i,
                {
                    let lit = json_string(ids[i].as_str());
                    out.append(lit.as_str());
                    proof {
                        assert(ids.deep_view().take(i as int + 1).drop_last() =~= ids
                            .deep_view()
                            .take(i as int));
                        assert(ids.deep_view().take(i as int + 1).last() == ids.deep_view()[i as int]);
                        assert(ids.deep_view()[i as int] == ids@[i as int]@);
                        assert(out@ =~= prefix + spec_json_str_list(
                            ids.deep_view().take(i as int + 1),
                        ));
                    }
                    i += 1;
                    if i < n {
                        out.append(",");
                    }
                }
                out.append("]}");
                proof {
                    assert(ids.deep_view().take(n as int) =~= ids.deep_view());
                }
            },
            None => {},
        }
        out.append("}");
        proof {
            assert(out@ =~= spec_tweet_json(self@));
        }
        out
    }
}

/// Where a content-creation payload is POSTed.
pub open spec fn spec_tweet_endpoint() -> Seq<char> {
    "https://api.twitter.com/2/tweets"@
}

pub fn tweet_endpoint() -> (r: String)
    ensures
        r@ == spec_tweet_endpoint(),
{
    String::from_str("https://api.twitter.com/2/tweets")
}

/// Where media bytes are uploaded before being referenced by a payload.
pub open spec fn spec_media_upload_endpoint() -> Seq<char> {
    "https://upload.twitter.com/1.1/media/upload.json"@
}

pub fn media_upload_endpoint() -> (r: String)
    ensures
        r@ == spec_media_upload_endpoint(),
{
    String::from_str("https://upload.twitter.com/1.1/media/upload.json")
}

/// The endpoint a like or retweet is POSTed to, before its query: it
/// names the acting account.
pub open spec fn spec_engage_base_url(x_id: Seq<char>, retweet: bool) -> Seq<char> {
    "https://api.twitter.com/2/users/"@ + x_id + (if retweet {
        "/retweets"@
    } else {
        "/likes"@
    })
}

pub fn engage_base_url(x_id: &str, retweet: bool) -> (r: String)
    ensures
        r@ == spec_engage_base_url(x_id@, retweet),
{
    let mut out = String::from_str("https://api.twitter.com/2/users/");
    out.append(x_id);
    if retweet {
        out.append("/retweets");
    } else {
        out.append("/likes");
    }
    proof {
        assert(out@ =~= spec_engage_base_url(x_id@, retweet));
    }
    out
}

/// The full address of a like or retweet: a direct POST naming the
/// acting account and the target tweet, with no payload.
pub open spec fn spec_engage_url(x_id: Seq<char>, tweet_id: Seq<char>, retweet: bool) -> Seq<char> {
    spec_engage_base_url(x_id, retweet) + "?tweet_id="@ + tweet_id
}

pub fn engage_url(x_id: &str, tweet_id: &str, retweet: bool) -> (r: String)
    ensures
        r@ == spec_engage_url(x_id@, tweet_id@, retweet),
{
    let mut out = engage_base_url(x_id, retweet);
    out.append("?tweet_id=");
    out.append(tweet_id);
    proof {
        assert(out@ =~= spec_engage_url(x_id@, tweet_id@, retweet));
    }
    out
}

/// The public page of an account.
pub open spec fn spec_profile_url(username: Seq<char>) -> Seq<char> {
    "https://x.com/"@ + username
}

pub fn profile_url(username: &str) -> (r: String)
    ensures
        r@ == spec_profile_url(username@),
{
    let mut s = String::from_str("https://x.com/");
    s.append(username);
    s
}

/// The public address of a content item.
pub open spec fn spec_status_url(username: Seq<char>, id: Seq<char>) -> Seq<char> {
    "https://x.com/"@ + username + "/status/"@ + id
}

pub fn status_url(username: &str, id: &str) -> (r: String)
    ensures
        r@ == spec_status_url(username@, id@),
{
    let mut s = String::from_str("https://x.com/");
    s.append(username);
    s.append("/status/");
    s.append(id);
    proof {
        assert(s@ =~= spec_status_url(username@, id@));
    }
    s
}

/// Where the linked account's public identity is fetched from.
pub open spec fn spec_user_lookup_endpoint() -> Seq<char> {
    "https://api.twitter.com/2/users/me"@
}

pub fn user_lookup_endpoint() -> (r: String)
    ensures
        r@ == spec_user_lookup_endpoint(),
{
    String::from_str("https://api.twitter.com/2/users/me")
}

} // verus!
