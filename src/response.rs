use vstd::prelude::*;

use crate::event::opt_view;
use crate::json::{lemma_lookup_at, member, members, Json};

verus! {

/// What the hook decided: whether to go on, and an optional message.
#[derive(Debug, PartialEq)]
pub struct HookResponse {
    pub should_continue: bool,
    pub system_message: Option<String>,
}

pub struct HookResponseView {
    pub should_continue: bool,
    pub system_message: Option<Seq<char>>,
}

impl View for HookResponse {
    type V = HookResponseView;

    open spec fn view(&self) -> HookResponseView {
        HookResponseView {
            should_continue: self.should_continue,
            system_message: opt_view(self.system_message),
        }
    }
}

/// Reads a verdict from an object with a boolean `continue` and a
/// `systemMessage` that is a string, `null` or absent.
pub open spec fn response_of_json(j: Json) -> Option<HookResponseView> {
    match member(j, "continue"@) {
        Some(Json::Bool(b)) => match member(j, "systemMessage"@) {
            None => Some(HookResponseView { should_continue: b, system_message: None }),
            Some(Json::Null) => Some(HookResponseView { should_continue: b, system_message: None }),
            Some(Json::Str(s)) => Some(
                HookResponseView { should_continue: b, system_message: Some(s@) },
            ),
            _ => None,
        },
        _ => None,
    }
}

/// The pieces of `s` between its `\n` characters, in order; there is one
/// more piece than there are `\n`s.
pub open spec fn split_at_newlines(s: Seq<char>) -> Seq<Seq<char>>
    decreases s.len(),
{
    if s.len() == 0 {
        seq![Seq::empty()]
    } else if s.last() == '\n' {
        split_at_newlines(s.drop_last()).push(Seq::empty())
    } else {
        let pieces = split_at_newlines(s.drop_last());
        pieces.update(pieces.len() - 1, pieces.last().push(s.last()))
    }
}

/// A line that ended in `\r\n`, without its `\r`.
pub open spec fn without_cr(line: Seq<char>) -> Seq<char> {
    if line.len() > 0 && line.last() == '\r' {
        line.drop_last()
    } else {
        line
    }
}

/// The lines of a text as `str::lines` gives them: it is split at each `\n`,
/// one `\r` before a `\n` is dropped, a final `\n` starts no further line,
/// and an empty text has no lines.
pub open spec fn lines_of(s: Seq<char>) -> Seq<Seq<char>> {
    if s.len() == 0 {
        Seq::empty()
    } else if s.last() == '\n' {
        split_at_newlines(s.drop_last()).map_values(|l: Seq<char>| without_cr(l))
    } else {
        let pieces = split_at_newlines(s);
        pieces.drop_last().map_values(|l: Seq<char>| without_cr(l)).push(pieces.last())
    }
}

/// Relies on `str::lines`: its lines as `lines_of` describes them.
#[verifier::external_body]
fn split_lines(s: &str) -> (r: Vec<String>)
    ensures
        r@.map_values(|l: String| l@) == lines_of(s@),
{
    s.lines().map(String::from).collect()
}

/// A verdict as the hook writes it, or the hook's output as it was when it
/// could not be read as one.
#[derive(Debug, PartialEq)]
pub enum Classification {
    Decision { should_continue: bool, message_lines: Option<Vec<String>> },
    Unparsed(String),
}

impl HookResponse {
    /// Reads a verdict from its object form.
    pub fn from_json(j: &Json) -> (r: Option<HookResponse>)
        ensures
            match r {
                Some(h) => response_of_json(*j) == Some(h@),
                None => response_of_json(*j) is None,
            },
    {
        match j.get("continue") {
            Some(Json::Bool(b)) => match j.get("systemMessage") {
                None => Some(HookResponse { should_continue: *b, system_message: None }),
                Some(Json::Null) => Some(HookResponse { should_continue: *b, system_message: None }),
                Some(Json::Str(s)) => Some(
                    HookResponse { should_continue: *b, system_message: Some(s.clone()) },
                ),
                _ => None,
            },
            _ => None,
        }
    }

    /// The verdict as an object with `continue` and `systemMessage`; reading it
    /// back gives the same verdict.
    pub fn to_json(&self) -> (r: Json)
        ensures
            response_of_json(r) == Some(self@),
            members(r) matches Some(fs) && fs.len() == 2 && fs[0].0@ == "continue"@
                && fs[1].0@ == "systemMessage"@,
    {
        let message = match &self.system_message {
            Some(m) => Json::Str(m.clone()),
            None => Json::Null,
        };
        let fields = vec![
            (String::from_str("continue"), Json::Bool(self.should_continue)),
            (String::from_str("systemMessage"), message),
        ];
        proof {
            reveal_strlit("continue");
            reveal_strlit("systemMessage");
            assert("continue"@[0] != "systemMessage"@[0]);
            lemma_lookup_at(fields@, "continue"@, 0);
            lemma_lookup_at(fields@, "systemMessage"@, 1);
        }
        Json::Obj(fields)
    }

    /// The verdict shown when an event is only simulated: go on, with a note
    /// that the review passed.
    pub fn simulated() -> (r: HookResponse)
        ensures
            r@ == (HookResponseView {
                should_continue: true,
                system_message: Some("[자기검열-code] ✅ 검토 통과"@),
            }),
    {
        HookResponse {
            should_continue: true,
            system_message: Some(String::from_str("[자기검열-code] ✅ 검토 통과")),
        }
    }
}

/// Classifies the hook's raw output, given what a JSON reader made of it
/// (`None` when it was not JSON at all). A verdict gives the decision and its
/// message split into lines; anything else leaves the raw text as it was.
pub fn classify(raw: String, parsed: Option<Json>) -> (r: Classification)
    ensures
        match parsed {
            Some(j) => match response_of_json(j) {
                Some(v) => match r {
                    Classification::Decision { should_continue, message_lines } => {
                        &&& should_continue == v.should_continue
                        &&& match (message_lines, v.system_message) {
                            (Some(ls), Some(m)) => ls@.map_values(|l: String| l@) == lines_of(m),
                            (None, None) => true,
                            _ => false,
                        }
                    },
                    Classification::Unparsed(_) => false,
                },
                None => r == Classification::Unparsed(raw),
            },
            None => r == Classification::Unparsed(raw),
        },
{
    let response = match &parsed {
        Some(j) => HookResponse::from_json(j),
        None => None,
    };
    match response {
        Some(h) => {
            let message_lines = match &h.system_message {
                Some(m) => Some(split_lines(m.as_str())),
                None => None,
            };
            Classification::Decision { should_continue: h.should_continue, message_lines }
        },
        None => Classification::Unparsed(raw),
    }
}

} // verus!
