//! The arguments of a tool call, as the model sent them: a JSON text whose
//! top-level members the tools read by name.

use vstd::prelude::*;
use crate::text::same_text;

verus! {

/// One member of the argument object, as far as the tools read it.
#[derive(Debug)]
pub enum ArgValue {
    /// A JSON string.
    Text(String),
    /// A JSON number that is a non-negative integer below 2^64.
    Unsigned(u64),
    /// Anything else.
    Other,
}

/// What an `ArgValue` holds.
pub enum ArgModel {
    Text(Seq<char>),
    Unsigned(u64),
    Other,
}

impl View for ArgValue {
    type V = ArgModel;

    open spec fn view(&self) -> ArgModel {
        match self {
            ArgValue::Text(s) => ArgModel::Text(s@),
            ArgValue::Unsigned(n) => ArgModel::Unsigned(*n),
            ArgValue::Other => ArgModel::Other,
        }
    }
}

/// What `serde_json` makes of a text: for each member of the object that
/// the text denotes, its name, its text if it is a string, and its value if
/// it is a non-negative integer below 2^64; no members where the text
/// denotes another kind of value; or the parser's complaint where the text
/// is not JSON.
pub uninterp spec fn json_members(text: Seq<char>) -> Result<
    Seq<(Seq<char>, Option<Seq<char>>, Option<u64>)>,
    Seq<char>,
>;

/// The members in `v`, as the contracts speak of them.
pub open spec fn raw_model(v: Seq<(String, Option<String>, Option<u64>)>) -> Seq<
    (Seq<char>, Option<Seq<char>>, Option<u64>),
> {
    Seq::new(v.len(), |i: int| (v[i].0@, v[i].1.deep_view(), v[i].2))
}

/// Parses `text` with `serde_json::from_str` into a `serde_json::Value`,
/// and hands out the members of a top-level object (`Value::as_object`),
/// each with its name, with what `Value::as_str` gives for it and with what
/// `Value::as_u64` gives for it. A value that is no object has no members.
/// Where the parser fails, its message comes back.
#[verifier::external_body]
fn parse_members(text: &str) -> (r: Result<Vec<(String, Option<String>, Option<u64>)>, String>)
    ensures
        match r {
            Ok(v) => json_members(text@) == Ok::<
                Seq<(Seq<char>, Option<Seq<char>>, Option<u64>)>,
                Seq<char>,
            >(raw_model(v@)),
            Err(e) => json_members(text@) == Err::<
                Seq<(Seq<char>, Option<Seq<char>>, Option<u64>)>,
                Seq<char>,
            >(e@),
        },
{
    match serde_json::from_str::<serde_json::Value>(text) {
        Ok(v) => Ok(v.as_object().into_iter().flatten().map(
            |(k, m)| (k.clone(), m.as_str().map(str::to_owned), m.as_u64()),
        ).collect()),
        Err(e) => Err(e.to_string()),
    }
}

/// What the tools read of a member: its text if it is a string, else its
/// value if it is a non-negative integer.
pub open spec fn member_model(m: (Seq<char>, Option<Seq<char>>, Option<u64>)) -> (
    Seq<char>,
    ArgModel,
) {
    (
        m.0,
        match m.1 {
            Some(t) => ArgModel::Text(t),
            None => match m.2 {
                Some(n) => ArgModel::Unsigned(n),
                None => ArgModel::Other,
            },
        },
    )
}

/// What the tools read of the members `raw`.
pub open spec fn classified(raw: Seq<(Seq<char>, Option<Seq<char>>, Option<u64>)>) -> Seq<
    (Seq<char>, ArgModel),
> {
    Seq::new(raw.len(), |i: int| member_model(raw[i]))
}

/// The arguments that the JSON text `text` holds, or the parser's
/// complaint.
pub open spec fn parsed_args(text: Seq<char>) -> Result<Seq<(Seq<char>, ArgModel)>, Seq<char>> {
    match json_members(text) {
        Ok(raw) => Ok(classified(raw)),
        Err(e) => Err(e),
    }
}

/// The members in `v`, by name, as the contracts speak of them.
pub open spec fn members_model(v: Seq<(String, ArgValue)>) -> Seq<(Seq<char>, ArgModel)> {
    Seq::new(v.len(), |i: int| (v[i].0@, v[i].1@))
}

/// Whether `text` is JSON, as `serde_json` reads it.
pub fn is_json(text: &str) -> (r: bool)
    ensures
        r == json_members(text@) is Ok,
{
    parse_members(text).is_ok()
}

/// The first member called `key`.
pub open spec fn lookup(members: Seq<(Seq<char>, ArgModel)>, key: Seq<char>) -> Option<ArgModel>
    decreases members.len(),
{
    if members.len() == 0 {
        None
    } else if members[0].0 == key {
        Some(members[0].1)
    } else {
        lookup(members.drop_first(), key)
    }
}

/// The text of the string member `key`, if there is one.
pub open spec fn text_member(members: Seq<(Seq<char>, ArgModel)>, key: Seq<char>) -> Option<
    Seq<char>,
> {
    match lookup(members, key) {
        Some(ArgModel::Text(s)) => Some(s),
        _ => None,
    }
}

/// The value of the non-negative integer member `key`, if there is one.
pub open spec fn unsigned_member(members: Seq<(Seq<char>, ArgModel)>, key: Seq<char>) -> Option<
    u64,
> {
    match lookup(members, key) {
        Some(ArgModel::Unsigned(n)) => Some(n),
        _ => None,
    }
}

/// The parsed arguments of one tool call.
#[derive(Debug)]
pub struct ToolArgs {
    pub members: Vec<(String, ArgValue)>,
}

impl View for ToolArgs {
    type V = Seq<(Seq<char>, ArgModel)>;

    open spec fn view(&self) -> Seq<(Seq<char>, ArgModel)> {
        members_model(self.members@)
    }
}

impl ToolArgs {
    /// Reads the JSON text of a tool call's arguments. Fails, with the
    /// parser's message, exactly where the text is not JSON.
    pub fn parse(text: &str) -> (r: Result<ToolArgs, String>)
        ensures
            match r {
                Ok(a) => parsed_args(text@) == Ok::<Seq<(Seq<char>, ArgModel)>, Seq<char>>(a@),
                Err(e) => parsed_args(text@) == Err::<Seq<(Seq<char>, ArgModel)>, Seq<char>>(e@),
            },
    {
        match parse_members(text) {
            Ok(raw) => {
                let mut members: Vec<(String, ArgValue)> = Vec::new();
                let mut i: usize = 0;
                while i < raw.len()
                    invariant
                        i <= raw@.len(),
                        members@.len() == i,
                        forall|k: int|
                            0 <= k < i ==> (#[trigger] members@[k].0@, members@[k].1@)
                                == member_model(raw_model(raw@)[k]),
                    decreases raw@.len() - i,
                {
                    let value = match &raw[i].1 {
                        Some(t) => ArgValue::Text(t.clone()),
                        None => match raw[i].2 {
                            Some(n) => ArgValue::Unsigned(n),
                            None => ArgValue::Other,
                        },
                    };
                    members.push((raw[i].0.clone(), value));
                    i += 1;
                }
                assert(members_model(members@) =~= classified(raw_model(raw@)));
                Ok(ToolArgs { members })
            },
            Err(e) => Err(e),
        }
    }

    fn find(&self, key: &str) -> (r: Option<usize>)
        ensures
            match r {
                Some(i) => i < self.members@.len() && lookup(self@, key@) == Some(
                    self.members@[i as int].1@,
                ),
                None => lookup(self@, key@) is None,
            },
    {
        let mut i: usize = 0;
        assert(self@.skip(0) =~= self@);
        while i < self.members.len()
            invariant
                i <= self.members@.len(),
                lookup(self@, key@) == lookup(self@.skip(i as int), key@),
            decreases self.members@.len() - i,
        {
            proof {
                let rest = self@.skip(i as int);
                assert(rest[0] == self@[i as int]);
                assert(rest.drop_first() =~= self@.skip(i + 1));
            }
            if same_text(self.members[i].0.as_str(), key) {
                return Some(i);
            }
            i += 1;
        }
        assert(self@.skip(i as int).len() == 0);
        None
    }

    /// The string member `key`.
    pub fn get_str(&self, key: &str) -> (r: Option<&String>)
        ensures
            match r {
                Some(s) => text_member(self@, key@) == Some(s@),
                None => text_member(self@, key@) is None,
            },
    {
        match self.find(key) {
            Some(i) => match &self.members[i].1 {
                ArgValue::Text(s) => Some(s),
                _ => None,
            },
            None => None,
        }
    }

    /// The non-negative integer member `key`.
    pub fn get_u64(&self, key: &str) -> (r: Option<u64>)
        ensures
            r == unsigned_member(self@, key@),
    {
        match self.find(key) {
            Some(i) => match &self.members[i].1 {
                ArgValue::Unsigned(n) => Some(*n),
                _ => None,
            },
            None => None,
        }
    }
}

} // verus!
