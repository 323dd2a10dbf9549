//! The message endpoint: what a request holds, who may send one, and what
//! the sender is told.

use vstd::prelude::*;
use vstd::string::StringExecFns;
use crate::text::{
    chars_of, concat, find_char, first_index_of, last_index_of, rfind_char, same_text, starts_with,
    string_of,
};

verus! {

/// A message for the assistant.
#[derive(Debug)]
pub struct MessageRequest {
    pub text: String,
    pub channel: String,
    pub user: String,
}

/// The assistant's answer to a message.
#[derive(Debug)]
pub struct MessageResponse {
    pub text: String,
    /// What the assistant did besides answering, each as JSON text.
    pub actions: Vec<String>,
}

/// What a turn came to.
#[derive(Debug)]
pub struct AgentResponse {
    pub text: Option<String>,
    /// What the assistant did besides answering, each as JSON text.
    pub actions: Vec<String>,
}

pub fn default_channel() -> (s: String)
    ensures
        s@ == "cli"@,
{
    String::from_str("cli")
}

pub fn default_user() -> (s: String)
    ensures
        s@ == "masaki"@,
{
    String::from_str("masaki")
}

/// What the sender is told where the assistant had nothing to say.
pub const NO_RESPONSE: &'static str = "(no response)";

/// The status and the text that answer a message: the reply, or the error
/// in words where the turn failed.
pub open spec fn answer_text(outcome: Result<Option<Seq<char>>, Seq<char>>) -> (u16, Seq<char>) {
    match outcome {
        Ok(Some(text)) => (200, text),
        Ok(None) => (200, NO_RESPONSE@),
        Err(e) => (500, "Error: "@ + e),
    }
}

/// What a turn's outcome is, as the contracts speak of it.
pub open spec fn turn_outcome(outcome: Result<AgentResponse, String>) -> Result<
    Option<Seq<char>>,
    Seq<char>,
> {
    match outcome {
        Ok(r) => Ok(r.text.deep_view()),
        Err(e) => Err(e@),
    }
}

/// Answers a message with what the turn came to. A failed turn is answered
/// too, with the error in words.
pub fn respond(outcome: Result<AgentResponse, String>) -> (r: (u16, MessageResponse))
    ensures
        (r.0, r.1.text@) == answer_text(turn_outcome(outcome)),
        outcome matches Ok(a) ==> r.1.actions == a.actions,
        outcome is Err ==> r.1.actions@.len() == 0,
{
    match outcome {
        Ok(resp) => {
            let text = match resp.text {
                Some(t) => t,
                None => String::from_str(NO_RESPONSE),
            };
            (200, MessageResponse { text, actions: resp.actions })
        },
        Err(e) => (500, MessageResponse { text: concat("Error: ", e.as_str()), actions: Vec::new() }),
    }
}

/// The token that an `Authorization` header carries, if it is a bearer
/// token.
pub open spec fn bearer_of(header: Seq<char>) -> Option<Seq<char>> {
    if "Bearer "@.is_prefix_of(header) {
        Some(header.skip("Bearer "@.len() as int))
    } else {
        None
    }
}

/// Whether a request with the `Authorization` header `header` may pass
/// where `expected` is the token that was set. Without a token that was set
/// every request may pass.
pub open spec fn may_pass(expected: Option<Seq<char>>, header: Option<Seq<char>>) -> bool {
    match expected {
        None => true,
        Some(token) => match header {
            Some(h) => bearer_of(h) == Some(token),
            None => false,
        },
    }
}

pub fn bearer_token(header: &str) -> (r: Option<String>)
    ensures
        r.deep_view() == bearer_of(header@),
{
    let h = chars_of(header);
    let prefix = chars_of("Bearer ");
    if starts_with(&h, &prefix) {
        let token = string_of(&h, prefix.len(), h.len());
        assert(h@.subrange(prefix@.len() as int, h@.len() as int) =~= header@.skip(
            "Bearer "@.len() as int,
        ));
        Some(token)
    } else {
        None
    }
}

pub fn authorized(expected: &Option<String>, header: &Option<String>) -> (r: bool)
    ensures
        r == may_pass(expected.deep_view(), header.deep_view()),
{
    match expected {
        None => true,
        Some(token) => match header {
            Some(h) => match bearer_token(h.as_str()) {
                Some(t) => same_text(t.as_str(), token.as_str()),
                None => false,
            },
            None => false,
        },
    }
}

/// Whether the page at `path` is open to everyone: the chat page and the
/// health check are.
pub fn is_open_path(path: &str) -> (r: bool)
    ensures
        r == (path@ == "/health"@ || path@ == "/"@),
{
    same_text(path, "/health") || same_text(path, "/")
}

/// The host that a listener's address names: what stands between square
/// brackets at its beginning, or else what stands before its last colon, or
/// else all of it.
pub open spec fn host_part(bind: Seq<char>) -> Seq<char> {
    if bind.len() > 0 && bind[0] == '[' && first_index_of(bind.skip(1), ']') < bind.len() - 1 {
        bind.subrange(1, 1 + first_index_of(bind.skip(1), ']'))
    } else if last_index_of(bind, ':') >= 0 {
        bind.take(last_index_of(bind, ':'))
    } else {
        bind
    }
}

pub fn bind_host(bind: &str) -> (host: String)
    ensures
        host@ == host_part(bind@),
{
    let b = chars_of(bind);
    if b.len() > 0 && b[0] == '[' {
        let inner = string_of(&b, 1, b.len());
        assert(inner@ =~= bind@.skip(1));
        let inner_chars = chars_of(inner.as_str());
        match find_char(&inner_chars, ']') {
            Some(end) => {
                let host = string_of(&inner_chars, 0, end);
                assert(inner_chars@.subrange(0, end as int) =~= bind@.subrange(1, 1 + end));
                return host;
            },
            None => {},
        }
    }
    match rfind_char(&b, ':') {
        Some(colon) => {
            proof {
                crate::text::last_index_of_bounds(b@, ':');
            }
            let host = string_of(&b, 0, colon);
            assert(b@.subrange(0, colon as int) =~= bind@.take(colon as int));
            host
        },
        None => String::from_str(bind),
    }
}

/// Whether a listener at `bind` is reached from this machine only, given
/// whether the host of `bind` is the address of a loopback interface.
pub fn is_localhost(bind: &str, host_is_loopback: bool) -> (r: bool)
    ensures
        r == (host_part(bind@) == "localhost"@ || host_is_loopback),
{
    let host = bind_host(bind);
    same_text(host.as_str(), "localhost") || host_is_loopback
}

/// What a listener that may not start is refused with.
pub open spec fn binding_refusal(service: Seq<char>, section: Seq<char>, bind: Seq<char>) -> Seq<
    char,
> {
    service + " authentication required for non-localhost binding '"@ + bind + "'. Set ["@
        + section + "] api_key."@
}

/// Whether a listener may start: one that is reached from other machines
/// needs a token. `service` and `section` name the listener in the
/// refusal.
pub fn check_binding(
    service: &str,
    section: &str,
    bind: &str,
    has_key: bool,
    host_is_loopback: bool,
) -> (r: Result<(), String>)
    ensures
        match r {
            Ok(()) => has_key || host_part(bind@) == "localhost"@ || host_is_loopback,
            Err(e) => !has_key && !(host_part(bind@) == "localhost"@ || host_is_loopback) && e@
                == binding_refusal(service@, section@, bind@),
        },
{
    if has_key || is_localhost(bind, host_is_loopback) {
        Ok(())
    } else {
        let mut m = String::from_str(service);
        m.append(" authentication required for non-localhost binding '");
        m.append(bind);
        m.append("'. Set [");
        m.append(section);
        m.append("] api_key.");
        Err(m)
    }
}

} // verus!
