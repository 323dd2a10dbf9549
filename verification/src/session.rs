//! Conversations: what one holds, how an overgrown one is compressed, and
//! the store that hands each out to one turn at a time.

use std::collections::hash_map::DefaultHasher;
use std::hash::Hasher;
use vstd::prelude::*;
use vstd::std_specs::hash::DefaultHasherAdditionalSpecFns;
use vstd::string::StringExecFns;
use crate::llm::{clone_messages, clone_text, system_message, user_message, Message, MessageModel};
use crate::text::{
    decimal, hex, hex_is_injective, join_path, joined, push_decimal, push_hex, same_text,
    sixteen_digits_fit,
};

verus! {

/// From how many messages on a conversation is compressed.
pub const SESSION_COMPRESS_THRESHOLD: usize = 20;

/// How many characters a merged summary may have.
pub const MAX_SUMMARY_LENGTH: usize = 2000;

/// What the model is told when it is asked for a summary.
pub const SUMMARIZE_PROMPT: &'static str =
    "Summarize this conversation concisely. Key facts, decisions, context. Under 300 words.";

/// One conversation.
#[derive(Debug)]
pub struct Session {
    /// Channel and user, as in `slack:U123`.
    pub key: String,
    pub messages: Vec<Message>,
    /// What earlier, compressed parts of the conversation came to.
    pub summary: Option<String>,
    /// The instant of the last change, in microseconds since the Unix
    /// epoch.
    pub updated_at: i64,
}

/// A `Session`, as the contracts speak of it.
pub struct SessionModel {
    pub key: Seq<char>,
    pub messages: Seq<MessageModel>,
    pub summary: Option<Seq<char>>,
    pub updated_at: i64,
}

impl View for Session {
    type V = SessionModel;

    open spec fn view(&self) -> SessionModel {
        SessionModel {
            key: self.key@,
            messages: self.messages.deep_view(),
            summary: self.summary.deep_view(),
            updated_at: self.updated_at,
        }
    }
}

impl DeepView for Session {
    type V = SessionModel;

    open spec fn deep_view(&self) -> SessionModel {
        self@
    }
}

/// The conversation `key` before anything was said.
pub open spec fn empty_session(key: Seq<char>, now: i64) -> SessionModel {
    SessionModel { key, messages: Seq::empty(), summary: None, updated_at: now }
}

/// How a message reads in the text that is summarized. A message without
/// text, which then only asks for tools, reads as a placeholder.
pub open spec fn transcript_line(m: MessageModel) -> Seq<char> {
    m.role + ": "@ + match m.content {
        Some(c) => c,
        None => "[tool call]"@,
    } + "\n"@
}

/// The first `n` of `messages` as text, one line each.
pub open spec fn transcript(messages: Seq<MessageModel>, n: int) -> Seq<char>
    decreases n,
{
    if n <= 0 {
        Seq::empty()
    } else {
        transcript(messages, n - 1) + transcript_line(messages[n - 1])
    }
}

/// What the model is sent to summarize the older half of `messages`.
pub open spec fn summary_request(messages: Seq<MessageModel>) -> Seq<MessageModel> {
    seq![
        system_message(SUMMARIZE_PROMPT@),
        user_message(transcript(messages, messages.len() as int / 2)),
    ]
}

/// The summary after `new` was added to `prev`: the two with a blank line
/// between them, or `new` alone where that would be longer than a summary
/// may be.
pub open spec fn merged_summary(prev: Option<Seq<char>>, new: Seq<char>) -> Seq<char> {
    match prev {
        Some(p) => if (p + "\n\n"@ + new).len() > MAX_SUMMARY_LENGTH {
            new
        } else {
            p + "\n\n"@ + new
        },
        None => new,
    }
}

/// The conversation after a compression for which the model has summarized
/// the older half as `new`. Below `threshold` messages nothing changes.
pub open spec fn compressed(s: SessionModel, threshold: nat, new: Seq<char>) -> SessionModel {
    if s.messages.len() < threshold {
        s
    } else {
        SessionModel {
            summary: Some(merged_summary(s.summary, new)),
            messages: s.messages.skip(s.messages.len() as int / 2),
            ..s
        }
    }
}

impl Clone for Session {
    fn clone(&self) -> (r: Self)
        ensures
            r@ == self@,
    {
        Session {
            key: self.key.clone(),
            messages: clone_messages(&self.messages),
            summary: clone_text(&self.summary),
            updated_at: self.updated_at,
        }
    }
}

impl Session {
    /// The conversation `key` before anything was said.
    pub fn new(key: &str, now: i64) -> (s: Self)
        ensures
            s@ == empty_session(key@, now),
    {
        let messages: Vec<Message> = Vec::new();
        assert(messages.deep_view() =~= Seq::<MessageModel>::empty());
        Session { key: String::from_str(key), messages, summary: None, updated_at: now }
    }

    /// Whether the conversation has grown enough to be compressed.
    pub fn needs_compression(&self, threshold: usize) -> (r: bool)
        ensures
            r == (self@.messages.len() >= threshold),
    {
        self.messages.len() >= threshold
    }

    /// What the model is sent to summarize the older half of the
    /// conversation, if the conversation is to be compressed.
    pub fn compression_request(&self, threshold: usize) -> (r: Option<Vec<Message>>)
        ensures
            match r {
                Some(request) => self@.messages.len() >= threshold && request.deep_view()
                    == summary_request(self@.messages),
                None => self@.messages.len() < threshold,
            },
    {
        if self.messages.len() < threshold {
            return None;
        }
        let mid: usize = self.messages.len() / 2;
        let mut input = String::new();
        let mut i: usize = 0;
        while i < mid
            invariant
                i <= mid <= self.messages@.len(),
                input@ == transcript(self@.messages, i as int),
            decreases mid - i,
        {
            let msg = &self.messages[i];
            assert(self@.messages[i as int] == msg@);
            input.append(msg.role.as_str());
            input.append(": ");
            match &msg.content {
                Some(c) => input.append(c.as_str()),
                None => input.append("[tool call]"),
            }
            input.append("\n");
            i += 1;
        }
        let mut request: Vec<Message> = Vec::new();
        request.push(Message::system(SUMMARIZE_PROMPT));
        request.push(Message::user(input.as_str()));
        assert(request.deep_view() =~= summary_request(self@.messages));
        Some(request)
    }

    /// Compresses the conversation, given the model's summary of its older
    /// half: the summary is merged into the one the conversation carries,
    /// and only the newer half of the messages stays. A conversation below
    /// `threshold` messages is left as it is.
    pub fn compress(&mut self, threshold: usize, new_summary: &str)
        ensures
            final(self)@ == compressed(old(self)@, threshold as nat, new_summary@),
    {
        if self.messages.len() < threshold {
            return ;
        }
        let mid: usize = self.messages.len() / 2;
        let merged = match &self.summary {
            Some(prev) => {
                let mut combined = prev.clone();
                combined.append("\n\n");
                combined.append(new_summary);
                if combined.as_str().unicode_len() > MAX_SUMMARY_LENGTH {
                    String::from_str(new_summary)
                } else {
                    combined
                }
            },
            None => String::from_str(new_summary),
        };
        let ghost before = self.messages.deep_view();
        let newer = self.messages.split_off(mid);
        assert(newer.deep_view() =~= before.skip(mid as int));
        self.messages = newer;
        self.summary = Some(merged);
    }

    /// Adds what the user said.
    pub fn push_user(&mut self, text: &str, now: i64)
        ensures
            final(self)@ == (SessionModel {
                messages: old(self)@.messages.push(user_message(text@)),
                updated_at: now,
                ..old(self)@
            }),
    {
        let ghost before = self.messages.deep_view();
        self.messages.push(Message::user(text));
        assert(self.messages.deep_view() =~= before.push(user_message(text@)));
        self.updated_at = now;
    }

    /// Adds what a turn came to.
    pub fn extend(&mut self, new_messages: Vec<Message>, now: i64)
        ensures
            final(self)@ == (SessionModel {
                messages: old(self)@.messages + new_messages.deep_view(),
                updated_at: now,
                ..old(self)@
            }),
    {
        let ghost before = self.messages.deep_view();
        let mut new_messages = new_messages;
        let ghost added = new_messages.deep_view();
        self.messages.append(&mut new_messages);
        assert(self.messages.deep_view() =~= before + added);
        self.updated_at = now;
    }
}

/// A compression of a conversation below the threshold changes nothing.
/// Any other leaves the newer half of the messages, which is the larger
/// one where the two differ, and a summary that holds the new one at its
/// end.
pub proof fn compression_halves(s: SessionModel, threshold: nat, new: Seq<char>)
    ensures
        s.messages.len() < threshold ==> compressed(s, threshold, new) == s,
        s.messages.len() >= threshold ==> {
            let after = compressed(s, threshold, new);
            &&& after.messages.len() == (s.messages.len() + 1) / 2
            &&& after.messages == s.messages.skip(s.messages.len() as int / 2)
            &&& after.summary is Some
            &&& after.summary->0.len() >= new.len()
            &&& after.summary->0.skip(after.summary->0.len() - new.len()) == new
            &&& after.key == s.key
        },
{
    if s.messages.len() >= threshold {
        let after = compressed(s, threshold, new);
        let merged = after.summary->0;
        assert(merged.skip(merged.len() - new.len()) =~= new);
    }
}

/// Where the model's summary is not empty, the conversation's summary is
/// not empty after the compression.
pub proof fn compression_leaves_a_summary(s: SessionModel, threshold: nat, new: Seq<char>)
    requires
        s.messages.len() >= threshold,
        new.len() > 0,
    ensures
        compressed(s, threshold, new).summary is Some,
        compressed(s, threshold, new).summary->0.len() > 0,
{
}

/// A compressed conversation that is still below the threshold is not
/// compressed again.
pub proof fn compression_is_idempotent_when_short(
    s: SessionModel,
    threshold: nat,
    new: Seq<char>,
    again: Seq<char>,
)
    requires
        compressed(s, threshold, new).messages.len() < threshold,
    ensures
        compressed(compressed(s, threshold, new), threshold, again) == compressed(
            s,
            threshold,
            new,
        ),
{
}

/// What `<str as Hash>::hash` of the standard library leaves written to a
/// hasher to which `before` had been written.
pub uninterp spec fn hashed_str(before: Seq<Seq<u8>>, key: Seq<char>) -> Seq<Seq<u8>>;

/// `<str as Hash>::hash` of the standard library: feeds `key` to the
/// hasher. What the hasher has then been fed depends on what it had been
/// fed before and on `key`, and on nothing else.
#[verifier::external_body]
fn hash_str(key: &str, state: &mut DefaultHasher)
    ensures
        final(state)@ == hashed_str(old(state)@, key@),
{
    std::hash::Hash::hash(key, state)
}

/// The hash of a session key.
pub open spec fn key_hash(key: Seq<char>) -> u64 {
    DefaultHasher::spec_finish(hashed_str(Seq::empty(), key))
}

/// The name, without extension, of the file that holds the session `key`:
/// the key's hash in sixteen hexadecimal digits.
pub open spec fn filename_of(key: Seq<char>) -> Seq<char> {
    hex(key_hash(key) as nat, 16)
}

/// Keys with different hashes are kept in different files.
pub proof fn filenames_differ_with_hashes(a: Seq<char>, b: Seq<char>)
    requires
        key_hash(a) != key_hash(b),
    ensures
        filename_of(a) != filename_of(b),
{
    sixteen_digits_fit(key_hash(a));
    sixteen_digits_fit(key_hash(b));
    if filename_of(a) == filename_of(b) {
        hex_is_injective(key_hash(a) as nat, key_hash(b) as nat, 16);
    }
}

/// The slots of a store, as the contracts speak of them: each a key and
/// the conversation under it, or nothing while a turn holds it.
pub type Slots = Seq<(Seq<char>, Option<SessionModel>)>;

/// Where the first slot under `key` stands, or the number of slots where
/// there is none.
pub open spec fn index_of_key(slots: Slots, key: Seq<char>) -> int
    decreases slots.len(),
{
    if slots.len() == 0 {
        0
    } else if slots[0].0 == key {
        0
    } else {
        1 + index_of_key(slots.drop_first(), key)
    }
}

/// What is under `key`: nothing at all, a conversation that a turn holds,
/// or a conversation.
pub open spec fn slot_of(slots: Slots, key: Seq<char>) -> Option<Option<SessionModel>> {
    let i = index_of_key(slots, key);
    if i < slots.len() {
        Some(slots[i].1)
    } else {
        None
    }
}

/// The slots with `value` under `key`, in the slot that `key` has or in a
/// new one.
pub open spec fn with_slot(slots: Slots, key: Seq<char>, value: Option<SessionModel>) -> Slots {
    let i = index_of_key(slots, key);
    if i < slots.len() {
        slots.update(i, (key, value))
    } else {
        slots.push((key, value))
    }
}

/// The slots after a turn asked for the conversation `key`, and what the
/// turn got: the conversation, a new one where there was none, or nothing
/// where another turn holds it.
pub open spec fn acquired(slots: Slots, key: Seq<char>, now: i64) -> (Slots, Option<SessionModel>) {
    match slot_of(slots, key) {
        None => (with_slot(slots, key, None), Some(empty_session(key, now))),
        Some(Some(s)) => (with_slot(slots, key, None), Some(s)),
        Some(None) => (slots, None),
    }
}

/// The slots after a turn gave the conversation `s` back.
pub open spec fn released(slots: Slots, s: SessionModel) -> Slots {
    with_slot(slots, s.key, Some(s))
}

/// The slots after the first `n` of `records` were loaded: of two records
/// under one key the one that was changed later stays, and the earlier
/// loaded one where neither was.
pub open spec fn loaded(records: Seq<SessionModel>, n: int) -> Slots
    decreases n,
{
    if n <= 0 {
        Seq::empty()
    } else {
        let before = loaded(records, n - 1);
        let r = records[n - 1];
        match slot_of(before, r.key) {
            Some(Some(kept)) => if r.updated_at > kept.updated_at {
                with_slot(before, r.key, Some(r))
            } else {
                before
            },
            _ => with_slot(before, r.key, Some(r)),
        }
    }
}

/// Where `key` stands among the slots: before it no slot has the key, and
/// the slot there has it, if there is a slot there.
pub proof fn index_of_key_is_first(slots: Slots, key: Seq<char>)
    ensures
        0 <= index_of_key(slots, key) <= slots.len(),
        index_of_key(slots, key) < slots.len() ==> slots[index_of_key(slots, key)].0 == key,
        forall|j: int| 0 <= j < index_of_key(slots, key) ==> (#[trigger] slots[j]).0 != key,
    decreases slots.len(),
{
    if slots.len() > 0 && slots[0].0 != key {
        let rest = slots.drop_first();
        index_of_key_is_first(rest, key);
        assert forall|j: int| 0 <= j < index_of_key(slots, key) implies (#[trigger] slots[j]).0
            != key by {
            if j > 0 {
                assert(rest[j - 1] == slots[j]);
            }
        }
    }
}

proof fn index_of_key_is(slots: Slots, key: Seq<char>, i: int)
    requires
        0 <= i <= slots.len(),
        i < slots.len() ==> slots[i].0 == key,
        forall|j: int| 0 <= j < i ==> (#[trigger] slots[j]).0 != key,
    ensures
        index_of_key(slots, key) == i,
    decreases slots.len(),
{
    if slots.len() > 0 {
        if i == 0 {
        } else {
            assert(slots[0].0 != key);
            let rest = slots.drop_first();
            assert forall|j: int| 0 <= j < i - 1 implies (#[trigger] rest[j]).0 != key by {
                assert(rest[j] == slots[j + 1]);
            }
            index_of_key_is(rest, key, i - 1);
        }
    }
}

/// What was put under a key is what is found under it, and nothing under
/// another key changes.
pub proof fn with_slot_touches_one_key(
    slots: Slots,
    key: Seq<char>,
    value: Option<SessionModel>,
    other: Seq<char>,
)
    ensures
        slot_of(with_slot(slots, key, value), key) == Some(value),
        other != key ==> slot_of(with_slot(slots, key, value), other) == slot_of(slots, other),
{
    let after = with_slot(slots, key, value);
    let i = index_of_key(slots, key);
    index_of_key_is_first(slots, key);
    assert forall|j: int| 0 <= j < i implies (#[trigger] after[j]).0 != key by {
        assert(after[j] == slots[j]);
    }
    index_of_key_is(after, key, i);
    if other != key {
        let o = index_of_key(slots, other);
        index_of_key_is_first(slots, other);
        assert forall|j: int| 0 <= j < o implies (#[trigger] after[j]).0 != other by {
            if j == i {
            } else {
                assert(after[j] == slots[j]);
            }
        }
        if o < slots.len() {
            assert(o != i);
            assert(after[o] == slots[o]);
            index_of_key_is(after, other, o);
        } else {
            if i == slots.len() {
                index_of_key_is(after, other, after.len() as int);
            } else {
                index_of_key_is(after, other, o);
            }
        }
    }
}

/// No turn sees or changes the conversation under another key: asking for
/// a conversation and giving one back leave every other key as it was.
pub proof fn sessions_are_isolated(
    slots: Slots,
    key: Seq<char>,
    now: i64,
    s: SessionModel,
    other: Seq<char>,
)
    ensures
        other != key ==> slot_of(acquired(slots, key, now).0, other) == slot_of(slots, other),
        other != s.key ==> slot_of(released(slots, s), other) == slot_of(slots, other),
{
    with_slot_touches_one_key(slots, key, None, other);
    with_slot_touches_one_key(slots, s.key, Some(s), other);
}

/// While a turn holds a conversation no other turn gets it, and the store
/// stays as it is.
pub proof fn held_session_is_exclusive(slots: Slots, key: Seq<char>, now: i64, later: i64)
    requires
        acquired(slots, key, now).1 is Some,
    ensures
        acquired(acquired(slots, key, now).0, key, later).1 is None,
        acquired(acquired(slots, key, now).0, key, later).0 == acquired(slots, key, now).0,
{
    with_slot_touches_one_key(slots, key, None, key);
}

/// What one turn adds to a conversation: what the user said, and what the
/// exchange with the model came to.
pub struct TurnModel {
    pub text: Seq<char>,
    pub added: Seq<MessageModel>,
    pub now: i64,
}

/// The conversation after a turn.
pub open spec fn after_turn(s: SessionModel, t: TurnModel) -> SessionModel {
    SessionModel {
        messages: s.messages.push(user_message(t.text)) + t.added,
        updated_at: t.now,
        ..s
    }
}

/// The slots after a turn took the conversation `key`, added to it and gave
/// it back. Where another turn holds the conversation nothing happens.
pub open spec fn turn_taken(slots: Slots, key: Seq<char>, t: TurnModel) -> Slots {
    match acquired(slots, key, t.now).1 {
        Some(s) => released(acquired(slots, key, t.now).0, after_turn(s, t)),
        None => slots,
    }
}

/// The conversation under `key`, or a new one where there is none.
pub open spec fn session_at(slots: Slots, key: Seq<char>, now: i64) -> SessionModel {
    match slot_of(slots, key) {
        Some(Some(s)) => s,
        _ => empty_session(key, now),
    }
}

/// Two turns on one conversation, one after the other, are both kept:
/// the conversation then holds what it held, what the first turn added, and
/// what the second turn added, in that order.
pub proof fn both_turns_are_kept(slots: Slots, key: Seq<char>, a: TurnModel, b: TurnModel)
    requires
        slot_of(slots, key) != Some(None::<SessionModel>),
        slot_of(slots, key) matches Some(Some(s)) ==> s.key == key,
    ensures
        ({
            let before = session_at(slots, key, a.now);
            let after = turn_taken(turn_taken(slots, key, a), key, b);
            &&& slot_of(after, key) matches Some(Some(s))
            &&& s.messages == before.messages.push(user_message(a.text)) + a.added + seq![
                user_message(b.text),
            ] + b.added
        }),
{
    let before = session_at(slots, key, a.now);
    let first = acquired(slots, key, a.now);
    let mid = turn_taken(slots, key, a);
    let sa = after_turn(before, a);
    with_slot_touches_one_key(first.0, key, Some(sa), key);
    let second = acquired(mid, key, b.now);
    let sb = after_turn(sa, b);
    with_slot_touches_one_key(second.0, key, Some(sb), key);
    assert(sb.messages =~= before.messages.push(user_message(a.text)) + a.added + seq![
        user_message(b.text),
    ] + b.added);
}

/// After loading, every record's key leads to a record of that key, and to
/// one that was changed no earlier than the record itself.
pub proof fn later_record_wins(records: Seq<SessionModel>, n: int, i: int)
    requires
        0 <= i < n <= records.len(),
    ensures
        slot_of(loaded(records, n), records[i].key) matches Some(Some(kept)) && kept.key
            == records[i].key && kept.updated_at >= records[i].updated_at && exists|j: int|
            0 <= j < n && records[j] == kept,
    decreases n,
{
    let before = loaded(records, n - 1);
    let r = records[n - 1];
    let after = loaded(records, n);
    let key = records[i].key;
    if i < n - 1 {
        later_record_wins(records, n - 1, i);
        let kept = slot_of(before, key)->0->0;
        let j = choose|j: int| 0 <= j < n - 1 && records[j] == kept;
        if r.key == key {
            with_slot_touches_one_key(before, r.key, Some(r), key);
            if r.updated_at > kept.updated_at {
                assert(records[n - 1] == r);
            } else {
                assert(records[j] == kept);
            }
        } else {
            with_slot_touches_one_key(before, r.key, Some(r), key);
            assert(records[j] == kept);
        }
    } else {
        with_slot_touches_one_key(before, r.key, Some(r), key);
        loaded_slots_are_records(records, n - 1, key);
        match slot_of(before, key) {
            Some(Some(kept)) => {
                if r.updated_at > kept.updated_at {
                    assert(records[n - 1] == r);
                } else {
                    let j = choose|j: int| 0 <= j < n - 1 && records[j] == kept;
                    assert(records[j] == kept);
                }
            },
            _ => {
                assert(records[n - 1] == r);
            },
        }
    }
}

/// After loading, what a key leads to is one of the records of that key,
/// and no loaded conversation is held by a turn.
pub proof fn loaded_slots_are_records(records: Seq<SessionModel>, n: int, key: Seq<char>)
    requires
        0 <= n <= records.len(),
    ensures
        match slot_of(loaded(records, n), key) {
            Some(Some(kept)) => kept.key == key && exists|j: int|
                0 <= j < n && records[j] == kept,
            Some(None) => false,
            None => forall|j: int| 0 <= j < n ==> (#[trigger] records[j]).key != key,
        },
    decreases n,
{
    if n > 0 {
        let before = loaded(records, n - 1);
        let r = records[n - 1];
        loaded_slots_are_records(records, n - 1, key);
        loaded_slots_are_records(records, n - 1, r.key);
        with_slot_touches_one_key(before, r.key, Some(r), key);
        match slot_of(loaded(records, n), key) {
            Some(Some(kept)) => {
                if kept == r {
                    assert(records[n - 1] == kept);
                } else {
                    let j = choose|j: int| 0 <= j < n - 1 && records[j] == kept;
                    assert(records[j] == kept);
                }
            },
            Some(None) => {},
            None => {
                assert forall|j: int| 0 <= j < n implies (#[trigger] records[j]).key != key by {
                    if j == n - 1 {
                        if r.key == key {
                            assert(slot_of(loaded(records, n), key) is Some);
                        }
                    }
                }
            },
        }
    }
}

/// A conversation whose key no other record bears is loaded as it was
/// saved: its messages and its summary are those of the record.
pub proof fn single_record_is_loaded_unchanged(records: Seq<SessionModel>, i: int)
    requires
        0 <= i < records.len(),
        forall|j: int| 0 <= j < records.len() && j != i ==> (#[trigger] records[j]).key
            != records[i].key,
    ensures
        slot_of(loaded(records, records.len() as int), records[i].key) == Some(Some(records[i])),
{
    later_record_wins(records, records.len() as int, i);
}

/// One slot of the store.
#[derive(Debug)]
pub struct Slot {
    pub key: String,
    /// The conversation, unless a turn holds it.
    pub session: Option<Session>,
}

/// The slots in `v`, as the contracts speak of them.
pub open spec fn slots_model(v: Seq<Slot>) -> Slots {
    Seq::new(v.len(), |i: int| (v[i].key@, v[i].session.deep_view()))
}

/// Where a conversation is written: first to `tmp`, which then takes the
/// place of `path` in one step, so that no reader finds half a record.
#[derive(Debug)]
pub struct SavePlan {
    pub path: String,
    pub tmp: String,
}

/// The conversations of all keys. Each is handed out to one turn at a time.
pub struct SessionStore {
    base_dir: String,
    slots: Vec<Slot>,
}

impl View for SessionStore {
    type V = Slots;

    closed spec fn view(&self) -> Slots {
        slots_model(self.slots@)
    }
}

impl SessionStore {
    /// The directory below which the store keeps its files.
    pub closed spec fn base(&self) -> Seq<char> {
        self.base_dir@
    }

    /// A store that holds the records found on disk, given in the order
    /// in which they were found.
    pub fn new(base_dir: String, records: Vec<Session>) -> (store: Self)
        ensures
            store@ == loaded(records.deep_view(), records@.len() as int),
            store.base() == base_dir@,
    {
        let mut store = SessionStore { base_dir, slots: Vec::new() };
        let ghost all = records.deep_view();
        assert(store@ =~= loaded(all, 0));
        let mut n: usize = 0;
        while n < records.len()
            invariant
                n <= records@.len(),
                all == records.deep_view(),
                store@ == loaded(all, n as int),
                store.base_dir@ == base_dir@,
            decreases records@.len() - n,
        {
            let record = records[n].clone();
            assert(record@ == all[n as int]);
            let replace = match store.find(record.key.as_str()) {
                Some(i) => match &store.slots[i].session {
                    Some(kept) => record.updated_at > kept.updated_at,
                    None => true,
                },
                None => true,
            };
            if replace {
                store.put(record);
            }
            n += 1;
        }
        store
    }

    fn find(&self, key: &str) -> (r: Option<usize>)
        ensures
            match r {
                Some(i) => i == index_of_key(self@, key@) && i < self.slots@.len(),
                None => index_of_key(self@, key@) == self.slots@.len(),
            },
    {
        let mut i: usize = 0;
        assert(self@.skip(0) =~= self@);
        while i < self.slots.len()
            invariant
                i <= self.slots@.len(),
                index_of_key(self@, key@) == i + index_of_key(self@.skip(i as int), key@),
            decreases self.slots@.len() - i,
        {
            proof {
                let rest = self@.skip(i as int);
                assert(rest[0] == self@[i as int]);
                assert(rest.drop_first() =~= self@.skip(i + 1));
            }
            if same_text(self.slots[i].key.as_str(), key) {
                return Some(i);
            }
            i += 1;
        }
        assert(self@.skip(i as int).len() == 0);
        None
    }

    fn put(&mut self, session: Session)
        ensures
            final(self)@ == with_slot(old(self)@, session@.key, Some(session@)),
            final(self).base_dir == old(self).base_dir,
    {
        let ghost before = self@;
        let key = session.key.clone();
        match self.find(key.as_str()) {
            Some(i) => {
                self.slots.remove(i);
                self.slots.insert(i, Slot { key, session: Some(session) });
                assert(self@ =~= before.update(i as int, (session@.key, Some(session@))));
            },
            None => {
                self.slots.push(Slot { key, session: Some(session) });
                assert(self@ =~= before.push((session@.key, Some(session@))));
            },
        }
    }

    /// Hands out the conversation `key` to a turn, and holds it until the
    /// turn gives it back. A key that was never seen gets a new
    /// conversation. While another turn holds the conversation there is
    /// nothing to hand out.
    pub fn get_or_create(&mut self, key: &str, now: i64) -> (r: Option<Session>)
        ensures
            final(self)@ == acquired(old(self)@, key@, now).0,
            r.deep_view() == acquired(old(self)@, key@, now).1,
            final(self).base() == old(self).base(),
    {
        let ghost before = self@;
        match self.find(key) {
            None => {
                self.slots.push(Slot { key: String::from_str(key), session: None });
                assert(self@ =~= before.push((key@, None)));
                Some(Session::new(key, now))
            },
            Some(i) => {
                if self.slots[i].session.is_none() {
                    return None;
                }
                let slot = self.slots.remove(i);
                self.slots.insert(i, Slot { key: String::from_str(key), session: None });
                assert(self@ =~= before.update(i as int, (key@, None)));
                proof {
                    index_of_key_is_first(before, key@);
                }
                slot.session
            },
        }
    }

    /// Takes back a conversation from the turn that held it.
    pub fn release(&mut self, session: Session)
        ensures
            final(self)@ == released(old(self)@, session@),
            final(self).base() == old(self).base(),
    {
        self.put(session)
    }

    /// The name, without extension, of the file that holds the session
    /// `key`.
    pub fn session_filename(key: &str) -> (name: String)
        ensures
            name@ == filename_of(key@),
    {
        let mut hasher = DefaultHasher::new();
        hash_str(key, &mut hasher);
        let hash = hasher.finish();
        let mut name = String::new();
        push_hex(&mut name, hash, 16);
        name
    }

    /// Where the conversation `key` is written by the process
    /// `process_id`.
    pub fn save_to_disk(&self, key: &str, process_id: u32) -> (plan: SavePlan)
        ensures
            plan.path@ == joined(joined(self.base(), "sessions"@), filename_of(key@) + ".json"@),
            plan.tmp@ == joined(
                joined(self.base(), "sessions"@),
                filename_of(key@) + "."@ + decimal(process_id as nat) + ".json.tmp"@,
            ),
    {
        let dir = join_path(self.base_dir.as_str(), "sessions");
        let name = Self::session_filename(key);
        let mut file = name.clone();
        file.append(".json");
        let mut tmp = name;
        tmp.append(".");
        push_decimal(&mut tmp, process_id as u64);
        tmp.append(".json.tmp");
        SavePlan {
            path: join_path(dir.as_str(), file.as_str()),
            tmp: join_path(dir.as_str(), tmp.as_str()),
        }
    }
}

} // verus!
