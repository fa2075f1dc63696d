use vstd::prelude::*;

use crate::event::{
    edit_name, kind_matches, lemma_tool_names_differ, opt_view, todo_write_name, write_name,
    TodoItem, TodoView, ToolEvent, ToolEventView, ToolInput, ToolInputView,
};
use crate::json::{lemma_lookup_at, member, members, string_member, Json};
use crate::text::str_equals;

verus! {

/// Reads a task-list entry from an object with `content` and `status` strings.
pub open spec fn todo_of_json(j: Json) -> Option<TodoView> {
    match (string_member(j, "content"@), string_member(j, "status"@)) {
        (Some(c), Some(s)) => Some(TodoView { content: c, status: s }),
        _ => None,
    }
}

/// Whether every element of `v` reads as a task-list entry.
pub open spec fn all_todos(v: Seq<Json>) -> bool {
    forall|i: int| 0 <= i < v.len() ==> (#[trigger] todo_of_json(v[i])) is Some
}

/// Reads a task list from an array of entries.
pub open spec fn todos_of_json(j: Option<Json>) -> Option<Seq<TodoView>> {
    match j {
        Some(Json::Arr(v)) => if all_todos(v@) {
            Some(v@.map_values(|x: Json| todo_of_json(x).unwrap()))
        } else {
            None
        },
        _ => None,
    }
}

/// Reads the input of the tool called `name` by that tool's schema. An
/// unknown tool takes any object.
pub open spec fn input_of_json(name: Seq<char>, j: Json) -> Option<ToolInputView> {
    if name == edit_name() {
        match (
            string_member(j, "file_path"@),
            string_member(j, "old_string"@),
            string_member(j, "new_string"@),
        ) {
            (Some(f), Some(o), Some(n)) => Some(
                ToolInputView::Edit { file_path: f, old_string: o, new_string: n },
            ),
            _ => None,
        }
    } else if name == write_name() {
        match (string_member(j, "file_path"@), string_member(j, "content"@)) {
            (Some(f), Some(c)) => Some(ToolInputView::Write { file_path: f, content: c }),
            _ => None,
        }
    } else if name == todo_write_name() {
        match todos_of_json(member(j, "todos"@)) {
            Some(t) => Some(ToolInputView::TodoWrite { todos: t }),
            None => None,
        }
    } else if members(j) is Some {
        Some(ToolInputView::Other)
    } else {
        None
    }
}

/// Reads an event from an object with `session_id`, `tool_name`, `tool_input`
/// and `cwd`.
pub open spec fn event_of_json(j: Json) -> Option<ToolEventView> {
    match (
        string_member(j, "session_id"@),
        string_member(j, "tool_name"@),
        member(j, "tool_input"@),
        string_member(j, "cwd"@),
    ) {
        (Some(s), Some(n), Some(i), Some(c)) => match input_of_json(n, i) {
            Some(iv) => Some(ToolEventView { session_id: s, tool_name: n, tool_input: iv, cwd: c }),
            None => None,
        },
        _ => None,
    }
}

fn string_field(j: &Json, key: &str) -> (r: Option<String>)
    ensures
        opt_view(r) == string_member(*j, key@),
{
    match j.get(key) {
        Some(v) => v.as_string(),
        None => None,
    }
}

fn entry(key: &str, value: &String) -> (r: (String, Json))
    ensures
        r.0@ == key@,
        r.1 == Json::Str(*value),
{
    (String::from_str(key), Json::Str(value.clone()))
}

impl TodoItem {
    /// The entry as an object with `content` and `status`.
    pub fn to_json(&self) -> (r: Json)
        ensures
            todo_of_json(r) == Some(self@),
    {
        let fields = vec![entry("content", &self.content), entry("status", &self.status)];
        proof {
            reveal_strlit("content");
            reveal_strlit("status");
            assert("content"@[0] != "status"@[0]);
            lemma_lookup_at(fields@, "content"@, 0);
            lemma_lookup_at(fields@, "status"@, 1);
        }
        Json::Obj(fields)
    }
}

fn todos_to_json(todos: &Vec<TodoItem>) -> (r: Vec<Json>)
    ensures
        all_todos(r@),
        r@.map_values(|x: Json| todo_of_json(x).unwrap()) == todos@.map_values(|t: TodoItem| t@),
{
    let mut out: Vec<Json> = Vec::new();
    let mut i: usize = 0;
    while i < todos.len()
        invariant
            i <= todos@.len(),
            out@.len() == i,
            forall|j: int| 0 <= j < i ==> todo_of_json(#[trigger] out@[j]) == Some(todos@[j]@),
        decreases todos@.len() - i,
    {
        out.push(todos[i].to_json());
        i += 1;
    }
    assert(out@.map_values(|x: Json| todo_of_json(x).unwrap()) =~= todos@.map_values(
        |t: TodoItem| t@,
    ));
    out
}

fn todos_from_json(v: &Vec<Json>) -> (r: Option<Vec<TodoItem>>)
    ensures
        match r {
            Some(t) => all_todos(v@) && t@.map_values(|x: TodoItem| x@) == v@.map_values(
                |x: Json| todo_of_json(x).unwrap(),
            ),
            None => !all_todos(v@),
        },
{
    let mut out: Vec<TodoItem> = Vec::new();
    let mut i: usize = 0;
    while i < v.len()
        invariant
            i <= v@.len(),
            out@.len() == i,
            forall|j: int| 0 <= j < i ==> todo_of_json(v@[j]) == Some(#[trigger] out@[j]@),
        decreases v@.len() - i,
    {
        let content = string_field(&v[i], "content");
        let status = string_field(&v[i], "status");
        match (content, status) {
            (Some(c), Some(s)) => {
                out.push(TodoItem { content: c, status: s });
            },
            _ => {
                assert(todo_of_json(v@[i as int]) is None);
                return None;
            },
        }
        i += 1;
    }
    assert forall|j: int| 0 <= j < v@.len() implies (#[trigger] todo_of_json(v@[j])) is Some by {
        assert(todo_of_json(v@[j]) == Some(out@[j]@));
    }
    assert(out@.map_values(|x: TodoItem| x@) =~= v@.map_values(
        |x: Json| todo_of_json(x).unwrap(),
    ));
    Some(out)
}

impl ToolInput {
    /// The input as an object with the fields of its schema, which reads back
    /// as the same input under the name of any tool whose schema it has.
    pub fn to_json(&self) -> (r: Json)
        ensures
            forall|name: Seq<char>| #[trigger]
                kind_matches(name, self@) ==> input_of_json(name, r) == Some(self@),
    {
        proof {
            lemma_tool_names_differ();
        }
        match self {
            ToolInput::Edit { file_path, old_string, new_string } => {
                let fields = vec![
                    entry("file_path", file_path),
                    entry("old_string", old_string),
                    entry("new_string", new_string),
                ];
                proof {
                    reveal_strlit("file_path");
                    reveal_strlit("old_string");
                    reveal_strlit("new_string");
                    assert("file_path"@[0] != "old_string"@[0]);
                    assert("file_path"@[0] != "new_string"@[0]);
                    assert("old_string"@[0] != "new_string"@[0]);
                    lemma_lookup_at(fields@, "file_path"@, 0);
                    lemma_lookup_at(fields@, "old_string"@, 1);
                    lemma_lookup_at(fields@, "new_string"@, 2);
                }
                Json::Obj(fields)
            },
            ToolInput::Write { file_path, content } => {
                let fields = vec![entry("file_path", file_path), entry("content", content)];
                proof {
                    reveal_strlit("file_path");
                    reveal_strlit("content");
                    assert("file_path"@[0] != "content"@[0]);
                    lemma_lookup_at(fields@, "file_path"@, 0);
                    lemma_lookup_at(fields@, "content"@, 1);
                }
                Json::Obj(fields)
            },
            ToolInput::TodoWrite { todos } => {
                let fields = vec![(String::from_str("todos"), Json::Arr(todos_to_json(todos)))];
                proof {
                    reveal_strlit("todos");
                    lemma_lookup_at(fields@, "todos"@, 0);
                }
                Json::Obj(fields)
            },
            ToolInput::Other => Json::Obj(Vec::new()),
        }
    }
}

impl ToolEvent {
    /// The event as an object with `session_id`, `tool_name`, `tool_input` and
    /// `cwd`. Reading it back gives the same event.
    pub fn to_json(&self) -> (r: Json)
        requires
            self@.well_formed(),
        ensures
            event_of_json(r) == Some(self@),
            members(r) matches Some(fs) && fs.len() == 4 && fs[0].0@ == "session_id"@
                && fs[1].0@ == "tool_name"@ && fs[2].0@ == "tool_input"@ && fs[3].0@ == "cwd"@,
    {
        let input = self.tool_input.to_json();
        let fields = vec![
            entry("session_id", &self.session_id),
            entry("tool_name", &self.tool_name),
            (String::from_str("tool_input"), input),
            entry("cwd", &self.cwd),
        ];
        proof {
            reveal_strlit("session_id");
            reveal_strlit("tool_name");
            reveal_strlit("tool_input");
            reveal_strlit("cwd");
            assert("session_id"@[0] != "tool_name"@[0]);
            assert("session_id"@[0] != "tool_input"@[0]);
            assert("session_id"@[0] != "cwd"@[0]);
            assert("tool_name"@[5] != "tool_input"@[5]);
            assert("tool_name"@[0] != "cwd"@[0]);
            assert("tool_input"@[0] != "cwd"@[0]);
            lemma_lookup_at(fields@, "session_id"@, 0);
            lemma_lookup_at(fields@, "tool_name"@, 1);
            lemma_lookup_at(fields@, "tool_input"@, 2);
            lemma_lookup_at(fields@, "cwd"@, 3);
        }
        Json::Obj(fields)
    }

    /// Reads an event back from its object form; `None` when a field is
    /// missing or does not fit the schema of the named tool.
    pub fn from_json(j: &Json) -> (r: Option<ToolEvent>)
        ensures
            match r {
                Some(e) => event_of_json(*j) == Some(e@) && e@.well_formed(),
                None => event_of_json(*j) is None,
            },
    {
        let session_id = match string_field(j, "session_id") {
            Some(s) => s,
            None => return None,
        };
        let tool_name = match string_field(j, "tool_name") {
            Some(s) => s,
            None => return None,
        };
        let cwd = match string_field(j, "cwd") {
            Some(s) => s,
            None => return None,
        };
        let input = match j.get("tool_input") {
            Some(v) => v,
            None => return None,
        };
        let tool_input = match input_from_json(tool_name.as_str(), input) {
            Some(t) => t,
            None => return None,
        };
        Some(ToolEvent { session_id, tool_name, tool_input, cwd })
    }
}

/// Writing a well-formed event to its object form and reading it back gives
/// the same event, field for field, whatever its tool kind: `to_json` gives an
/// object that `event_of_json` reads as the event, and `from_json` gives what
/// `event_of_json` reads.
pub proof fn lemma_event_round_trip(event: ToolEvent, encoded: Json, decoded: ToolEvent)
    requires
        event@.well_formed(),
        event_of_json(encoded) == Some(event@),
        event_of_json(encoded) == Some(decoded@),
    ensures
        decoded@ == event@,
        decoded@.session_id == event@.session_id,
        decoded@.tool_name == event@.tool_name,
        decoded@.tool_input == event@.tool_input,
        decoded@.cwd == event@.cwd,
        decoded@.well_formed(),
{
}

fn input_from_json(name: &str, j: &Json) -> (r: Option<ToolInput>)
    ensures
        match r {
            Some(t) => input_of_json(name@, *j) == Some(t@) && kind_matches(name@, t@),
            None => input_of_json(name@, *j) is None,
        },
{
    if str_equals(name, "Edit") {
        match (
            string_field(j, "file_path"),
            string_field(j, "old_string"),
            string_field(j, "new_string"),
        ) {
            (Some(file_path), Some(old_string), Some(new_string)) => Some(
                ToolInput::Edit { file_path, old_string, new_string },
            ),
            _ => None,
        }
    } else if str_equals(name, "Write") {
        match (string_field(j, "file_path"), string_field(j, "content")) {
            (Some(file_path), Some(content)) => Some(ToolInput::Write { file_path, content }),
            _ => None,
        }
    } else if str_equals(name, "TodoWrite") {
        match j.get("todos") {
            Some(Json::Arr(v)) => match todos_from_json(v) {
                Some(todos) => Some(ToolInput::TodoWrite { todos }),
                None => None,
            },
            _ => None,
        }
    } else {
        match j {
            Json::Obj(_) => Some(ToolInput::Other),
            _ => None,
        }
    }
}

} // verus!
