//! Tool calls, and what is shown of them.
use vstd::prelude::*;

use crate::command::{displayed, shell_joined, shown_faithfully, strip_bash_lc_and_escape};
use crate::json::copy_opt_json;
use crate::text::{opt_text, spaced, texts};

verus! {

/// What a tool does.
#[derive(Clone, Copy, Debug, PartialEq, Eq, Structural)]
pub enum ToolKind {
    Read,
    Edit,
    Search,
    Execute,
    Fetch,
}

/// How far a tool call has got.
#[derive(Clone, Copy, Debug, PartialEq, Eq, Structural)]
pub enum ToolCallStatus {
    InProgress,
    Completed,
    Failed,
}

/// A file that a tool call touches.
#[derive(Debug, PartialEq, Eq)]
pub struct ToolCallLocation {
    pub path: String,
    pub line: Option<u32>,
}

/// A tool call. `content` holds blocks of text.
#[derive(Debug, PartialEq, Eq)]
pub struct ToolCall {
    pub id: String,
    pub title: String,
    pub kind: ToolKind,
    pub status: ToolCallStatus,
    pub content: Vec<String>,
    pub locations: Vec<ToolCallLocation>,
    pub raw_input: Option<serde_json::Value>,
    pub raw_output: Option<serde_json::Value>,
}

/// The fields of a tool call that change. `None` leaves a field as it was.
#[derive(Debug, PartialEq, Eq)]
pub struct ToolCallUpdate {
    pub id: String,
    pub title: Option<String>,
    pub status: Option<ToolCallStatus>,
    pub content: Option<Vec<String>>,
}

/// The model of a `ToolCallLocation`.
pub struct ToolCallLocationView {
    pub path: Seq<char>,
    pub line: Option<u32>,
}

/// The model of a `ToolCall`.
#[verifier::ext_equal]
pub struct ToolCallView {
    pub id: Seq<char>,
    pub title: Seq<char>,
    pub kind: ToolKind,
    pub status: ToolCallStatus,
    pub content: Seq<Seq<char>>,
    pub locations: Seq<ToolCallLocationView>,
    pub raw_input: Option<serde_json::Value>,
    pub raw_output: Option<serde_json::Value>,
}

/// The model of a `ToolCallUpdate`.
#[verifier::ext_equal]
pub struct ToolCallUpdateView {
    pub id: Seq<char>,
    pub title: Option<Seq<char>>,
    pub status: Option<ToolCallStatus>,
    pub content: Option<Seq<Seq<char>>>,
}

impl View for ToolCallLocation {
    type V = ToolCallLocationView;

    open spec fn view(&self) -> ToolCallLocationView {
        ToolCallLocationView { path: self.path@, line: self.line }
    }
}

impl View for ToolCall {
    type V = ToolCallView;

    open spec fn view(&self) -> ToolCallView {
        ToolCallView {
            id: self.id@,
            title: self.title@,
            kind: self.kind,
            status: self.status,
            content: texts(self.content@),
            locations: Seq::new(self.locations@.len(), |i: int| self.locations@[i]@),
            raw_input: self.raw_input,
            raw_output: self.raw_output,
        }
    }
}

impl View for ToolCallUpdate {
    type V = ToolCallUpdateView;

    open spec fn view(&self) -> ToolCallUpdateView {
        ToolCallUpdateView {
            id: self.id@,
            title: opt_text(self.title),
            status: self.status,
            content: match self.content {
                Some(content) => Some(texts(content@)),
                None => None,
            },
        }
    }
}

impl Clone for ToolCallLocation {
    fn clone(&self) -> (copy: Self)
        ensures
            copy == *self,
    {
        ToolCallLocation { path: self.path.clone(), line: self.line }
    }
}

impl Clone for ToolCall {
    fn clone(&self) -> (copy: Self)
        ensures
            copy@ == self@,
    {
        let copy: ToolCall = ToolCall {
            id: self.id.clone(),
            title: self.title.clone(),
            kind: self.kind,
            status: self.status,
            content: self.content.clone(),
            locations: self.locations.clone(),
            raw_input: copy_opt_json(&self.raw_input),
            raw_output: copy_opt_json(&self.raw_output),
        };
        assert(copy@ =~= self@);
        copy
    }
}

/// What a shell command does, as far as it was understood.
#[derive(Debug, PartialEq, Eq)]
pub enum ParsedCommand {
    /// Reads a file.
    Read { name: String },
    /// Lists the files of a directory.
    ListFiles { cmd: String, path: Option<String> },
    /// Searches for a query.
    Search { cmd: String, query: Option<String>, path: Option<String> },
    /// Anything else.
    Other,
}

/// The start of a shell command.
#[derive(Debug, PartialEq, Eq)]
pub struct ExecCommandBeginEvent {
    pub call_id: String,
    pub command: Vec<String>,
    pub parsed_cmd: Vec<ParsedCommand>,
}

/// A tool call that has just begun and has nothing to show yet.
pub open spec fn begun(id: Seq<char>, title: Seq<char>, kind: ToolKind) -> ToolCallView {
    ToolCallView {
        id,
        title,
        kind,
        status: ToolCallStatus::InProgress,
        content: Seq::empty(),
        locations: Seq::empty(),
        raw_input: None,
        raw_output: None,
    }
}

/// Starts a tool call with nothing to show yet.
pub fn begin_tool_call(id: String, title: String, kind: ToolKind) -> (call: ToolCall)
    ensures
        call@ == begun(id@, title@, kind),
        call.id@ == id@,
        call.title@ == title@,
        call.kind == kind,
        call.status == ToolCallStatus::InProgress,
        call.content@.len() == 0,
        call.locations@.len() == 0,
        call.raw_input is None,
        call.raw_output is None,
{
    let call: ToolCall = ToolCall {
        id,
        title,
        kind,
        status: ToolCallStatus::InProgress,
        content: Vec::new(),
        locations: Vec::new(),
        raw_input: None,
        raw_output: None,
    };
    assert(call@ =~= begun(id@, title@, kind));
    call
}

/// The title of a search, from what is known of it: the query, the place, or the bare command.
pub open spec fn search_title(
    query: Option<Seq<char>>,
    path: Option<Seq<char>>,
    cmd: Seq<char>,
) -> Seq<char> {
    match (query, path) {
        (Some(q), Some(p)) => "Search "@ + q + " in "@ + p,
        (Some(q), None) => "Search "@ + q,
        (None, Some(p)) => "Search "@ + p,
        (None, None) => "Search "@ + cmd,
    }
}

/// The files that reading `name` touches: the named one, if there is a name.
pub open spec fn read_locations(name: Seq<char>) -> Seq<ToolCallLocationView> {
    if name.len() == 0 {
        Seq::empty()
    } else {
        seq![ToolCallLocationView { path: name, line: None }]
    }
}

/// The call of a shell command that was understood as `parsed`. Only a command that does one single
/// thing gets a title and a kind of its own.
pub open spec fn described(call: ToolCallView, parsed: Seq<ParsedCommand>) -> ToolCallView {
    if parsed.len() != 1 {
        call
    } else {
        match parsed[0] {
            ParsedCommand::Read { name } => ToolCallView {
                title: "Read "@ + name@,
                kind: ToolKind::Read,
                locations: read_locations(name@),
                ..call
            },
            ParsedCommand::ListFiles { cmd, path } => ToolCallView {
                title: "List "@ + match path {
                    Some(p) => p@,
                    None => cmd@,
                },
                kind: ToolKind::Read,
                ..call
            },
            ParsedCommand::Search { cmd, query, path } => ToolCallView {
                title: search_title(opt_text(query), opt_text(path), cmd@),
                kind: ToolKind::Search,
                ..call
            },
            ParsedCommand::Other => call,
        }
    }
}

/// The call that stands for a shell command that has begun.
pub open spec fn exec_begun(msg: ExecCommandBeginEvent) -> ToolCallView {
    let command = texts(msg.command@);
    described(
        begun(msg.call_id@, displayed(command, shell_joined(command)), ToolKind::Execute),
        msg.parsed_cmd@,
    )
}

fn build_search_title(query: &Option<String>, path: &Option<String>, cmd: &String) -> (title: String)
    ensures
        title@ == search_title(opt_text(*query), opt_text(*path), cmd@),
{
    let title: String = "Search ".to_owned();
    match (query, path) {
        (Some(q), Some(p)) => title.concat(q.as_str()).concat(" in ").concat(p.as_str()),
        (Some(q), None) => title.concat(q.as_str()),
        (None, Some(p)) => title.concat(p.as_str()),
        (None, None) => title.concat(cmd.as_str()),
    }
}

/// The call that stands for a shell command that was understood as `parsed`. `title` is the title
/// of a command that was not.
pub fn build_exec_tool_call(call_id: String, title: String, parsed: &[ParsedCommand]) -> (call:
    ToolCall)
    ensures
        call@ == described(begun(call_id@, title@, ToolKind::Execute), parsed@),
        call.id@ == call_id@,
        call.status == ToolCallStatus::InProgress,
        call.content@.len() == 0,
        call.raw_input is None,
        call.raw_output is None,
        match (if parsed@.len() == 1 {
            Some(parsed@[0])
        } else {
            None
        }) {
            Some(ParsedCommand::Read { name }) => {
                &&& call.kind == ToolKind::Read
                &&& call.title@ == "Read "@ + name@
                &&& name@.len() == 0 ==> call.locations@.len() == 0
                &&& name@.len() > 0 ==> {
                    &&& call.locations@.len() == 1
                    &&& call.locations@[0].path@ == name@
                    &&& call.locations@[0].line is None
                }
            },
            Some(ParsedCommand::ListFiles { cmd, path }) => {
                &&& call.kind == ToolKind::Read
                &&& path matches Some(path) ==> call.title@ == "List "@ + path@
                &&& path is None ==> call.title@ == "List "@ + cmd@
                &&& call.locations@.len() == 0
            },
            Some(ParsedCommand::Search { cmd, query, path }) => {
                &&& call.kind == ToolKind::Search
                &&& call.title@ == "Search "@ + match (query, path) {
                    (Some(query), Some(path)) => query@ + " in "@ + path@,
                    (Some(query), None) => query@,
                    (None, Some(path)) => path@,
                    (None, None) => cmd@,
                }
                &&& call.locations@.len() == 0
            },
            _ => {
                &&& call.kind == ToolKind::Execute
                &&& call.title@ == title@
                &&& call.locations@.len() == 0
            },
        },
{
    let mut call: ToolCall = begin_tool_call(call_id, title, ToolKind::Execute);
    if parsed.len() == 1 {
        match &parsed[0] {
            ParsedCommand::Read { name } => {
                call.title = "Read ".to_owned().concat(name.as_str());
                call.kind = ToolKind::Read;
                if !name.as_str().is_empty() {
                    call.locations.push(ToolCallLocation { path: name.clone(), line: None });
                }
            },
            ParsedCommand::ListFiles { cmd, path } => {
                call.title = match path {
                    Some(p) => "List ".to_owned().concat(p.as_str()),
                    None => "List ".to_owned().concat(cmd.as_str()),
                };
                call.kind = ToolKind::Read;
            },
            ParsedCommand::Search { cmd, query, path } => {
                call.title = build_search_title(query, path, cmd);
                call.kind = ToolKind::Search;
            },
            ParsedCommand::Other => {},
        }
    }
    assert(call@ =~= described(begun(call_id@, title@, ToolKind::Execute), parsed@));
    call
}

/// The call that stands for a shell command that has begun.
pub fn build_tool_call_from_exec_begin(msg: &ExecCommandBeginEvent) -> (call: ToolCall)
    ensures
        call@ == exec_begun(*msg),
        shown_faithfully(texts(msg.command@)),
        call.id@ == msg.call_id@,
        call.status == ToolCallStatus::InProgress,
        call.content@.len() == 0,
        call.raw_input is None,
        call.raw_output is None,
        match (if msg.parsed_cmd@.len() == 1 {
            Some(msg.parsed_cmd@[0])
        } else {
            None
        }) {
            Some(ParsedCommand::Read { name }) => {
                &&& call.kind == ToolKind::Read
                &&& call.title@ == "Read "@ + name@
                &&& name@.len() == 0 ==> call.locations@.len() == 0
                &&& name@.len() > 0 ==> {
                    &&& call.locations@.len() == 1
                    &&& call.locations@[0].path@ == name@
                    &&& call.locations@[0].line is None
                }
            },
            Some(ParsedCommand::ListFiles { cmd, path }) => {
                &&& call.kind == ToolKind::Read
                &&& path matches Some(path) ==> call.title@ == "List "@ + path@
                &&& path is None ==> call.title@ == "List "@ + cmd@
                &&& call.locations@.len() == 0
            },
            Some(ParsedCommand::Search { cmd, query, path }) => {
                &&& call.kind == ToolKind::Search
                &&& call.title@ == "Search "@ + match (query, path) {
                    (Some(query), Some(path)) => query@ + " in "@ + path@,
                    (Some(query), None) => query@,
                    (None, Some(path)) => path@,
                    (None, None) => cmd@,
                }
                &&& call.locations@.len() == 0
            },
            _ => {
                &&& call.kind == ToolKind::Execute
                &&& call.title@ == if msg.command@.len() == 3 && msg.command@[0]@ == "bash"@
                    && msg.command@[1]@ == "-lc"@ {
                    msg.command@[2]@
                } else {
                    let words = Seq::new(msg.command@.len(), |i: int| msg.command@[i]@);
                    match shell_joined(words) {
                        Some(quoted) => quoted,
                        None => spaced(words),
                    }
                }
                &&& call.locations@.len() == 0
            },
        },
{
    let title: String = strip_bash_lc_and_escape(msg.command.as_slice());
    build_exec_tool_call(msg.call_id.clone(), title, msg.parsed_cmd.as_slice())
}

} // verus!
