//! Linking a chat to a social-media account over a three-legged OAuth1
//! handshake, and acting on that account — post, like, retweet, reply,
//! quote, with optional media — through per-chat stored credentials.
//! The credential store, the handshake engine, the form and payload
//! codecs and the dispatch decisions are verified; the network and the
//! chat transport stay outside and hand in plain values.
pub mod auth;
pub mod builder;
pub mod db;
pub mod errors;
pub mod handlers;
pub mod jsonio;
pub mod kv;
pub mod post;
pub mod urlenc;
pub mod text;
