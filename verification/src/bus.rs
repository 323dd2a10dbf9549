//! What passes between the channels and the assistant.

use vstd::prelude::*;
use vstd::string::StringExecFns;
use crate::text::{chars_of, find_char, first_index_of, same_text, string_of};

verus! {

/// What a channel hands to the assistant.
#[derive(Debug)]
pub struct InboundMessage {
    pub session_key: String,
    pub channel_name: String,
    pub user_id: String,
    pub user_name: String,
    pub text: String,
}

/// What the assistant hands to a channel.
#[derive(Debug)]
pub struct OutboundMessage {
    pub session_key: String,
    pub text: String,
}

impl Clone for OutboundMessage {
    fn clone(&self) -> (r: Self)
        ensures
            r.session_key@ == self.session_key@,
            r.text@ == self.text@,
    {
        OutboundMessage { session_key: self.session_key.clone(), text: self.text.clone() }
    }
}

/// The key of the conversation of `user` on `channel`.
pub open spec fn key_of(channel: Seq<char>, user: Seq<char>) -> Seq<char> {
    channel + ":"@ + user
}

pub fn session_key(channel: &str, user: &str) -> (key: String)
    ensures
        key@ == key_of(channel@, user@),
{
    let mut key = String::from_str(channel);
    key.append(":");
    key.append(user);
    key
}

/// The channel that a session key names: what stands before its first
/// colon, or all of it where it has none.
pub open spec fn channel_part(key: Seq<char>) -> Seq<char> {
    key.take(first_index_of(key, ':'))
}

pub fn channel_of(session_key: &str) -> (channel: String)
    ensures
        channel@ == channel_part(session_key@),
{
    let k = chars_of(session_key);
    let end = match find_char(&k, ':') {
        Some(i) => i,
        None => k.len(),
    };
    let channel = string_of(&k, 0, end);
    assert(k@.subrange(0, end as int) =~= k@.take(end as int));
    channel
}

/// Whether a reply under `session_key` goes out through the channel
/// `channel_name`.
pub fn routes_to(channel_name: &str, session_key: &str) -> (r: bool)
    ensures
        r == (channel_part(session_key@) == channel_name@),
{
    let channel = channel_of(session_key);
    same_text(channel.as_str(), channel_name)
}

} // verus!
