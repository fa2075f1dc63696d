use vstd::prelude::*;

use crate::text::{int_text, str_equals, text_of_i64};

verus! {

/// One entry of a task list.
#[derive(Debug, PartialEq)]
pub struct TodoItem {
    pub content: String,
    pub status: String,
}

pub struct TodoView {
    pub content: Seq<char>,
    pub status: Seq<char>,
}

impl View for TodoItem {
    type V = TodoView;

    open spec fn view(&self) -> TodoView {
        TodoView { content: self.content@, status: self.status@ }
    }
}

/// The arguments of a tool call, one variant per tool kind that has a schema.
#[derive(Debug, PartialEq)]
pub enum ToolInput {
    Edit { file_path: String, old_string: String, new_string: String },
    Write { file_path: String, content: String },
    TodoWrite { todos: Vec<TodoItem> },
    /// Any other tool: an empty object.
    Other,
}

pub enum ToolInputView {
    Edit { file_path: Seq<char>, old_string: Seq<char>, new_string: Seq<char> },
    Write { file_path: Seq<char>, content: Seq<char> },
    TodoWrite { todos: Seq<TodoView> },
    Other,
}

impl View for ToolInput {
    type V = ToolInputView;

    open spec fn view(&self) -> ToolInputView {
        match self {
            ToolInput::Edit { file_path, old_string, new_string } => ToolInputView::Edit {
                file_path: file_path@,
                old_string: old_string@,
                new_string: new_string@,
            },
            ToolInput::Write { file_path, content } => ToolInputView::Write {
                file_path: file_path@,
                content: content@,
            },
            ToolInput::TodoWrite { todos } => ToolInputView::TodoWrite {
                todos: todos@.map_values(|t: TodoItem| t@),
            },
            ToolInput::Other => ToolInputView::Other,
        }
    }
}

/// A synthetic tool-invocation event, as the hook receives it.
#[derive(Debug, PartialEq)]
pub struct ToolEvent {
    pub session_id: String,
    pub tool_name: String,
    pub tool_input: ToolInput,
    pub cwd: String,
}

pub struct ToolEventView {
    pub session_id: Seq<char>,
    pub tool_name: Seq<char>,
    pub tool_input: ToolInputView,
    pub cwd: Seq<char>,
}

impl View for ToolEvent {
    type V = ToolEventView;

    open spec fn view(&self) -> ToolEventView {
        ToolEventView {
            session_id: self.session_id@,
            tool_name: self.tool_name@,
            tool_input: self.tool_input@,
            cwd: self.cwd@,
        }
    }
}

pub open spec fn edit_name() -> Seq<char> {
    "Edit"@
}

pub open spec fn write_name() -> Seq<char> {
    "Write"@
}

pub open spec fn todo_write_name() -> Seq<char> {
    "TodoWrite"@
}

/// The tool kinds that have a schema have different names.
pub proof fn lemma_tool_names_differ()
    ensures
        edit_name() != write_name(),
        edit_name() != todo_write_name(),
        write_name() != todo_write_name(),
{
    reveal_strlit("Edit");
    reveal_strlit("Write");
    reveal_strlit("TodoWrite");
    assert(edit_name()[0] != write_name()[0]);
    assert(edit_name()[0] != todo_write_name()[0]);
    assert(write_name()[0] != todo_write_name()[0]);
}

/// Whether `input` has the schema of the tool called `name`.
pub open spec fn kind_matches(name: Seq<char>, input: ToolInputView) -> bool {
    match input {
        ToolInputView::Edit { .. } => name == edit_name(),
        ToolInputView::Write { .. } => name == write_name(),
        ToolInputView::TodoWrite { .. } => name == todo_write_name(),
        ToolInputView::Other => name != edit_name() && name != write_name() && name
            != todo_write_name(),
    }
}

impl ToolEventView {
    /// The tool input has the schema that the tool name calls for.
    pub open spec fn well_formed(self) -> bool {
        kind_matches(self.tool_name, self.tool_input)
    }
}

pub open spec fn placeholder_path() -> Seq<char> {
    "test.rs"@
}

pub open spec fn default_old_string() -> Seq<char> {
    "fn old() {}"@
}

pub open spec fn default_new_string() -> Seq<char> {
    "fn new() { /* TODO: implement */ }"@
}

pub open spec fn write_template() -> Seq<char> {
    "fn main() {\n    println!(\"test\");\n}"@
}

pub open spec fn todo_template() -> Seq<TodoView> {
    seq![
        TodoView { content: "Implement feature"@, status: "pending"@ },
        TodoView { content: "Write tests"@, status: "pending"@ },
    ]
}

pub open spec fn opt_view(s: Option<String>) -> Option<Seq<char>> {
    match s {
        Some(t) => Some(t@),
        None => None,
    }
}

pub open spec fn path_or_placeholder(file: Option<Seq<char>>) -> Seq<char> {
    match file {
        Some(p) => p,
        None => placeholder_path(),
    }
}

/// The tool input that the fixed template of each tool kind gives.
pub open spec fn input_template(
    tool: Seq<char>,
    file: Option<Seq<char>>,
    code: Option<Seq<char>>,
) -> ToolInputView {
    if tool == edit_name() {
        ToolInputView::Edit {
            file_path: path_or_placeholder(file),
            old_string: default_old_string(),
            new_string: match code {
                Some(c) => c,
                None => default_new_string(),
            },
        }
    } else if tool == write_name() {
        ToolInputView::Write { file_path: path_or_placeholder(file), content: write_template() }
    } else if tool == todo_write_name() {
        ToolInputView::TodoWrite { todos: todo_template() }
    } else {
        ToolInputView::Other
    }
}

fn path_or_default(file: Option<String>) -> (r: String)
    ensures
        r@ == path_or_placeholder(opt_view(file)),
{
    match file {
        Some(p) => p,
        None => String::from_str("test.rs"),
    }
}

fn todo(content: &str, status: &str) -> (r: TodoItem)
    ensures
        r@ == (TodoView { content: content@, status: status@ }),
{
    TodoItem { content: String::from_str(content), status: String::from_str(status) }
}

/// Builds the tool input of a tool kind from its fixed template. An edit takes
/// `code` as its new text when it is given; the file path falls back to a
/// placeholder; a task list ignores both; an unknown kind gets an empty input.
pub fn build_tool_input(tool: &str, file: Option<String>, code: Option<String>) -> (r: ToolInput)
    ensures
        r@ == input_template(tool@, opt_view(file), opt_view(code)),
        kind_matches(tool@, r@),
{
    if str_equals(tool, "Edit") {
        let new_string = match code {
            Some(c) => c,
            None => String::from_str("fn new() { /* TODO: implement */ }"),
        };
        ToolInput::Edit {
            file_path: path_or_default(file),
            old_string: String::from_str("fn old() {}"),
            new_string,
        }
    } else if str_equals(tool, "Write") {
        ToolInput::Write {
            file_path: path_or_default(file),
            content: String::from_str("fn main() {\n    println!(\"test\");\n}"),
        }
    } else if str_equals(tool, "TodoWrite") {
        let todos = vec![todo("Implement feature", "pending"), todo("Write tests", "pending")];
        assert(todos@.map_values(|t: TodoItem| t@) =~= todo_template());
        ToolInput::TodoWrite { todos }
    } else {
        ToolInput::Other
    }
}

/// Builds an event for `tool` from its template, with the given session id and
/// working directory.
pub fn build_event(
    tool: &str,
    file: Option<String>,
    code: Option<String>,
    session_id: String,
    cwd: String,
) -> (r: ToolEvent)
    ensures
        r@ == (ToolEventView {
            session_id: session_id@,
            tool_name: tool@,
            tool_input: input_template(tool@, opt_view(file), opt_view(code)),
            cwd: cwd@,
        }),
        r@.well_formed(),
{
    let tool_input = build_tool_input(tool, file, code);
    ToolEvent { session_id, tool_name: String::from_str(tool), tool_input, cwd }
}

/// A session id made of `prefix` and a timestamp in decimal.
pub fn session_id(prefix: &str, stamp: i64) -> (r: String)
    ensures
        r@ == prefix@ + int_text(stamp as int),
{
    let mut out = String::from_str(prefix);
    let digits = text_of_i64(stamp);
    out.append(digits.as_str());
    out
}

/// The code that a single hook invocation sends: the given code, else the
/// text read from the given file, else a fixed note when that file could not
/// be read, else a small example.
pub fn invocation_code(code: Option<String>, file_given: bool, file_text: Option<String>) -> (r:
    String)
    ensures
        r@ == match code {
            Some(c) => c@,
            None => if file_given {
                match file_text {
                    Some(t) => t@,
                    None => "// Could not read file"@,
                }
            } else {
                "fn example() { /* test code */ }"@
            },
        },
{
    match code {
        Some(c) => c,
        None => if file_given {
            match file_text {
                Some(t) => t,
                None => String::from_str("// Could not read file"),
            }
        } else {
            String::from_str("fn example() { /* test code */ }")
        },
    }
}

/// The edit event of a single hook invocation: the whole of `code` is the new
/// text and nothing is replaced.
pub fn invocation_event(session_id: String, code: String, file: Option<String>, cwd: String) -> (r:
    ToolEvent)
    ensures
        r@ == (ToolEventView {
            session_id: session_id@,
            tool_name: edit_name(),
            tool_input: ToolInputView::Edit {
                file_path: path_or_placeholder(opt_view(file)),
                old_string: seq![],
                new_string: code@,
            },
            cwd: cwd@,
        }),
        r@.well_formed(),
{
    ToolEvent {
        session_id,
        tool_name: String::from_str("Edit"),
        tool_input: ToolInput::Edit {
            file_path: path_or_default(file),
            old_string: String::new(),
            new_string: code,
        },
        cwd,
    }
}

/// The fixed edit event of benchmark iteration `i`.
pub fn benchmark_event(i: u32, cwd: String) -> (r: ToolEvent)
    ensures
        r@ == (ToolEventView {
            session_id: "bench-"@ + int_text(i as int),
            tool_name: edit_name(),
            tool_input: ToolInputView::Edit {
                file_path: "bench_test.rs"@,
                old_string: "fn old() {}"@,
                new_string: "fn new() {}"@,
            },
            cwd: cwd@,
        }),
        r@.well_formed(),
{
    ToolEvent {
        session_id: session_id("bench-", i as i64),
        tool_name: String::from_str("Edit"),
        tool_input: ToolInput::Edit {
            file_path: String::from_str("bench_test.rs"),
            old_string: String::from_str("fn old() {}"),
            new_string: String::from_str("fn new() {}"),
        },
        cwd,
    }
}

} // verus!
