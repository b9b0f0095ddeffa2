//! Messages that the daemon streams to the editor.
use vstd::prelude::*;
use crate::text::{contains, contains_seq, owned, str_eq};

verus! {

/// Severity of a message.
#[derive(Debug, Clone, Copy, PartialEq, Eq, Structural)]
pub enum MessageLevel {
    Trace,
    Debug,
    Info,
    Warn,
    Error,
    Success,
}

/// State shown in the editor's status line.
#[derive(Debug, Clone, Copy, PartialEq, Eq, Structural)]
pub enum StatuslineState {
    /// Last task was successful
    Success,
    /// Last task failed
    Failure,
    /// A request is being processed.
    Processing,
    /// Something is being watched.
    Watching,
    /// Something is currently running.
    Running,
}

/// Tasks that the editor should execute.
#[derive(Debug, Clone, Copy, PartialEq, Eq, Structural)]
pub enum Task {
    UpdateStatusline(StatuslineState),
    OpenLogger,
    ReloadLspServer,
}

/// A message sent to the editor.
#[derive(Debug, Clone)]
pub enum Message {
    /// Notify the user with a message
    Notify { msg: String, level: MessageLevel },
    /// Log a message
    Log { msg: String, level: MessageLevel },
    /// Execute a task
    Execute(Task),
}

/// Mathematical form of a message: its text as a sequence of characters.
pub enum MessageView {
    Notify { msg: Seq<char>, level: MessageLevel },
    Log { msg: Seq<char>, level: MessageLevel },
    Execute(Task),
}

impl View for Message {
    type V = MessageView;

    open spec fn view(&self) -> MessageView {
        match self {
            Message::Notify { msg, level } => MessageView::Notify { msg: msg@, level: *level },
            Message::Log { msg, level } => MessageView::Log { msg: msg@, level: *level },
            Message::Execute(t) => MessageView::Execute(*t),
        }
    }
}

impl PartialEq for Message {
    fn eq(&self, other: &Message) -> (r: bool) {
        match self {
            Message::Notify { msg: a, level: la } => match other {
                Message::Notify { msg: b, level: lb } => *la == *lb && str_eq(a.as_str(), b.as_str()),
                _ => false,
            },
            Message::Log { msg: a, level: la } => match other {
                Message::Log { msg: b, level: lb } => *la == *lb && str_eq(a.as_str(), b.as_str()),
                _ => false,
            },
            Message::Execute(a) => match other {
                Message::Execute(b) => *a == *b,
                _ => false,
            },
        }
    }
}

impl vstd::std_specs::cmp::PartialEqSpecImpl for Message {
    open spec fn obeys_eq_spec() -> bool {
        true
    }

    open spec fn eq_spec(&self, other: &Message) -> bool {
        self@ == other@
    }
}

impl Eq for Message {
}

/// Plain text becomes an informational notification.
impl From<String> for Message {
    fn from(value: String) -> (r: Message) {
        Message::Notify { msg: value, level: MessageLevel::Info }
    }
}

impl vstd::std_specs::convert::FromSpecImpl<String> for Message {
    open spec fn obeys_from_spec() -> bool {
        true
    }

    open spec fn from_spec(value: String) -> Message {
        Message::Notify { msg: value, level: MessageLevel::Info }
    }
}

/// A notification with the given text and level.
pub open spec fn notify_of(text: Seq<char>, level: MessageLevel) -> MessageView {
    MessageView::Notify { msg: text, level }
}

/// A log line with the given text and level.
pub open spec fn log_of(text: Seq<char>, level: MessageLevel) -> MessageView {
    MessageView::Log { msg: text, level }
}

impl Message {
    /// A notification with the given level.
    pub fn notify(value: &str, level: MessageLevel) -> (r: Message)
        ensures
            r@ == notify_of(value@, level),
    {
        Message::Notify { msg: owned(value), level }
    }

    /// A log line with the given level.
    pub fn log(value: &str, level: MessageLevel) -> (r: Message)
        ensures
            r@ == log_of(value@, level),
    {
        Message::Log { msg: owned(value), level }
    }

    pub fn notify_error(value: &str) -> (r: Message)
        ensures
            r@ == notify_of(value@, MessageLevel::Error),
    {
        Message::notify(value, MessageLevel::Error)
    }

    pub fn notify_warn(value: &str) -> (r: Message)
        ensures
            r@ == notify_of(value@, MessageLevel::Warn),
    {
        Message::notify(value, MessageLevel::Warn)
    }

    pub fn notify_trace(value: &str) -> (r: Message)
        ensures
            r@ == notify_of(value@, MessageLevel::Trace),
    {
        Message::notify(value, MessageLevel::Trace)
    }

    pub fn notify_debug(value: &str) -> (r: Message)
        ensures
            r@ == notify_of(value@, MessageLevel::Debug),
    {
        Message::notify(value, MessageLevel::Debug)
    }

    /// An informational notification; plain text becomes this kind of message.
    pub fn notify_info(value: &str) -> (r: Message)
        ensures
            r@ == notify_of(value@, MessageLevel::Info),
    {
        Message::notify(value, MessageLevel::Info)
    }

    pub fn log_error(value: &str) -> (r: Message)
        ensures
            r@ == log_of(value@, MessageLevel::Error),
    {
        Message::log(value, MessageLevel::Error)
    }

    pub fn log_info(value: &str) -> (r: Message)
        ensures
            r@ == log_of(value@, MessageLevel::Info),
    {
        Message::log(value, MessageLevel::Info)
    }

    pub fn log_warn(value: &str) -> (r: Message)
        ensures
            r@ == log_of(value@, MessageLevel::Warn),
    {
        Message::log(value, MessageLevel::Warn)
    }

    pub fn log_trace(value: &str) -> (r: Message)
        ensures
            r@ == log_of(value@, MessageLevel::Trace),
    {
        Message::log(value, MessageLevel::Trace)
    }

    pub fn log_debug(value: &str) -> (r: Message)
        ensures
            r@ == log_of(value@, MessageLevel::Debug),
    {
        Message::log(value, MessageLevel::Debug)
    }
}


/// What a child process reports: a line on stdout, a line on stderr, or
/// its exit code.
#[derive(Debug, Clone)]
pub enum ProcessItem {
    Output(String),
    Error(String),
    Exit(String),
}

/// The lower-case form of a string, as `str::to_lowercase` gives it.
pub uninterp spec fn lower_of(s: Seq<char>) -> Seq<char>;

/// The string without leading and trailing white space, as `str::trim` gives it.
pub uninterp spec fn trim_of(s: Seq<char>) -> Seq<char>;

/// Relies on `str::to_lowercase`: the result depends on the characters alone.
#[verifier::external_body]
fn lowercase(s: &str) -> (r: String)
    ensures
        r@ == lower_of(s@),
{
    s.to_lowercase()
}

/// Relies on `str::trim`: the result depends on the characters alone.
#[verifier::external_body]
fn trim(s: &str) -> (r: &str)
    ensures
        r@ == trim_of(s@),
{
    s.trim()
}

/// Level of a line printed on stdout, judged from its lower-case form.
pub open spec fn output_level(lowered: Seq<char>) -> MessageLevel {
    if contains_seq(lowered, "error"@) {
        MessageLevel::Error
    } else if contains_seq(lowered, "warn"@) {
        MessageLevel::Warn
    } else {
        MessageLevel::Info
    }
}

/// The closing message of a process that exited with `code`.
pub open spec fn exit_message(code: Seq<char>, success: bool) -> MessageView {
    if success {
        log_of("Success"@, MessageLevel::Info)
    } else {
        log_of("Exit "@ + code, MessageLevel::Error)
    }
}

/// An exit code reports success when, trimmed, it is `0`.
pub open spec fn exit_success(trimmed: Seq<char>) -> bool {
    trimmed == "0"@
}

/// The message for any item that a child process reports.
pub open spec fn process_message(item: ProcessItem) -> MessageView {
    match item {
        ProcessItem::Output(line) => log_of(line@, output_level(lower_of(line@))),
        ProcessItem::Error(line) => log_of(line@, MessageLevel::Error),
        ProcessItem::Exit(code) => exit_message(code@, exit_success(trim_of(code@))),
    }
}

impl Message {
    /// The log line for a line of stdout, given its lower-case form.
    pub fn from_output_line(line: String, lowered: &str) -> (r: Message)
        ensures
            r@ == log_of(line@, output_level(lowered@)),
    {
        let level = if contains(lowered, "error") {
            MessageLevel::Error
        } else if contains(lowered, "warn") {
            MessageLevel::Warn
        } else {
            MessageLevel::Info
        };
        Message::Log { msg: line, level }
    }

    /// The closing log line for an exit code, given the code trimmed.
    pub fn from_exit_code(code: &str, trimmed: &str) -> (r: Message)
        ensures
            r@ == exit_message(code@, exit_success(trimmed@)),
    {
        if str_eq(trimmed, "0") {
            Message::log("Success", MessageLevel::Info)
        } else {
            let mut text = String::from_str("Exit ");
            text.append(code);
            Message::Log { msg: text, level: MessageLevel::Error }
        }
    }

    /// The message for an item reported by a child process: stdout lines
    /// are classified by the words they hold, stderr lines are errors, and
    /// the exit code closes the stream with success or failure.
    pub fn from_process_item(item: ProcessItem) -> (r: Message)
        ensures
            r@ == process_message(item),
    {
        match item {
            ProcessItem::Output(line) => {
                let lowered = lowercase(line.as_str());
                Message::from_output_line(line, lowered.as_str())
            },
            ProcessItem::Error(line) => Message::Log { msg: line, level: MessageLevel::Error },
            ProcessItem::Exit(code) => {
                let trimmed = trim(code.as_str());
                Message::from_exit_code(code.as_str(), trimmed)
            },
        }
    }
}


/// The name under which a level travels on the wire.
pub open spec fn level_name(l: MessageLevel) -> Seq<char> {
    match l {
        MessageLevel::Trace => "Trace"@,
        MessageLevel::Debug => "Debug"@,
        MessageLevel::Info => "Info"@,
        MessageLevel::Warn => "Warn"@,
        MessageLevel::Error => "Error"@,
        MessageLevel::Success => "Success"@,
    }
}

/// The level with the given wire name, if any.
pub open spec fn level_of_name(s: Seq<char>) -> Option<MessageLevel> {
    if s == "Trace"@ {
        Some(MessageLevel::Trace)
    } else if s == "Debug"@ {
        Some(MessageLevel::Debug)
    } else if s == "Info"@ {
        Some(MessageLevel::Info)
    } else if s == "Warn"@ {
        Some(MessageLevel::Warn)
    } else if s == "Error"@ {
        Some(MessageLevel::Error)
    } else if s == "Success"@ {
        Some(MessageLevel::Success)
    } else {
        None
    }
}

/// The name under which a status-line state travels on the wire.
pub open spec fn statusline_name(st: StatuslineState) -> Seq<char> {
    match st {
        StatuslineState::Success => "Success"@,
        StatuslineState::Failure => "Failure"@,
        StatuslineState::Processing => "Processing"@,
        StatuslineState::Watching => "Watching"@,
        StatuslineState::Running => "Running"@,
    }
}

/// The status-line state with the given wire name, if any.
pub open spec fn statusline_of_name(s: Seq<char>) -> Option<StatuslineState> {
    if s == "Success"@ {
        Some(StatuslineState::Success)
    } else if s == "Failure"@ {
        Some(StatuslineState::Failure)
    } else if s == "Processing"@ {
        Some(StatuslineState::Processing)
    } else if s == "Watching"@ {
        Some(StatuslineState::Watching)
    } else if s == "Running"@ {
        Some(StatuslineState::Running)
    } else {
        None
    }
}

impl MessageLevel {
    /// The wire name of this level.
    pub fn name(&self) -> (r: &'static str)
        ensures
            r@ == level_name(*self),
    {
        match self {
            MessageLevel::Trace => "Trace",
            MessageLevel::Debug => "Debug",
            MessageLevel::Info => "Info",
            MessageLevel::Warn => "Warn",
            MessageLevel::Error => "Error",
            MessageLevel::Success => "Success",
        }
    }

    /// The level with the given wire name.
    pub fn from_name(s: &str) -> (r: Option<MessageLevel>)
        ensures
            r == level_of_name(s@),
    {
        if str_eq(s, "Trace") {
            Some(MessageLevel::Trace)
        } else if str_eq(s, "Debug") {
            Some(MessageLevel::Debug)
        } else if str_eq(s, "Info") {
            Some(MessageLevel::Info)
        } else if str_eq(s, "Warn") {
            Some(MessageLevel::Warn)
        } else if str_eq(s, "Error") {
            Some(MessageLevel::Error)
        } else if str_eq(s, "Success") {
            Some(MessageLevel::Success)
        } else {
            None
        }
    }
}

impl StatuslineState {
    /// The wire name of this state.
    pub fn name(&self) -> (r: &'static str)
        ensures
            r@ == statusline_name(*self),
    {
        match self {
            StatuslineState::Success => "Success",
            StatuslineState::Failure => "Failure",
            StatuslineState::Processing => "Processing",
            StatuslineState::Watching => "Watching",
            StatuslineState::Running => "Running",
        }
    }

    /// The state with the given wire name.
    pub fn from_name(s: &str) -> (r: Option<StatuslineState>)
        ensures
            r == statusline_of_name(s@),
    {
        if str_eq(s, "Success") {
            Some(StatuslineState::Success)
        } else if str_eq(s, "Failure") {
            Some(StatuslineState::Failure)
        } else if str_eq(s, "Processing") {
            Some(StatuslineState::Processing)
        } else if str_eq(s, "Watching") {
            Some(StatuslineState::Watching)
        } else if str_eq(s, "Running") {
            Some(StatuslineState::Running)
        } else {
            None
        }
    }
}

/// Every level is read back from its wire name.
pub proof fn level_name_round_trip(l: MessageLevel)
    ensures
        level_of_name(level_name(l)) == Some(l),
{
    reveal_strlit("Trace");
    reveal_strlit("Debug");
    reveal_strlit("Info");
    reveal_strlit("Warn");
    reveal_strlit("Error");
    reveal_strlit("Success");
    assert("Trace"@[0] == 'T' && "Debug"@[0] == 'D' && "Info"@[0] == 'I');
    assert("Warn"@[0] == 'W' && "Error"@[0] == 'E' && "Success"@[0] == 'S');
}

/// Every status-line state is read back from its wire name.
pub proof fn statusline_name_round_trip(st: StatuslineState)
    ensures
        statusline_of_name(statusline_name(st)) == Some(st),
{
    reveal_strlit("Success");
    reveal_strlit("Failure");
    reveal_strlit("Processing");
    reveal_strlit("Watching");
    reveal_strlit("Running");
    assert("Success"@[0] == 'S' && "Failure"@[0] == 'F' && "Processing"@[0] == 'P');
    assert("Watching"@[0] == 'W' && "Running"@[0] == 'R');
}


/// The JSON string literal for a text, as `serde_json::to_string` writes it.
pub uninterp spec fn json_string(s: Seq<char>) -> Seq<char>;

/// Relies on `serde_json::to_string` on a `str`: the quoted and escaped
/// literal depends on the text alone, and writing a string into the
/// in-memory buffer that `to_string` uses cannot fail.
#[verifier::external_body]
fn quote_json(s: &str) -> (r: Option<String>)
    ensures
        r is Some,
        r matches Some(q) ==> q@ == json_string(s@),
{
    serde_json::to_string(s).ok()
}

/// The JSON object of a message whose text, if it has one, is written as
/// the literal `quoted`.
pub open spec fn message_json(m: MessageView, quoted: Seq<char>) -> Seq<char> {
    match m {
        MessageView::Notify { level, .. } => "{\"Notify\":{\"msg\":"@ + quoted + ",\"level\":\""@
            + level_name(level) + "\"}}"@,
        MessageView::Log { level, .. } => "{\"Log\":{\"msg\":"@ + quoted + ",\"level\":\""@
            + level_name(level) + "\"}}"@,
        MessageView::Execute(Task::UpdateStatusline(st)) => "{\"Execute\":{\"UpdateStatusline\":\""@
            + statusline_name(st) + "\"}}"@,
        MessageView::Execute(Task::OpenLogger) => "{\"Execute\":\"OpenLogger\"}"@,
        MessageView::Execute(Task::ReloadLspServer) => "{\"Execute\":\"ReloadLspServer\"}"@,
    }
}

/// The text carried by a message; empty for a task.
pub open spec fn message_text(m: MessageView) -> Seq<char> {
    match m {
        MessageView::Notify { msg, .. } => msg,
        MessageView::Log { msg, .. } => msg,
        MessageView::Execute(_) => Seq::empty(),
    }
}

/// The line that carries a message on the socket: its JSON object and a newline.
pub open spec fn message_line(m: MessageView) -> Seq<char> {
    message_json(m, json_string(message_text(m))) + "\n"@
}

impl Message {
    /// The socket line of this message, given the JSON literal of its text.
    pub fn line_with_quoted(&self, quoted: &str) -> (r: String)
        ensures
            r@ == message_json(self@, quoted@) + "\n"@,
    {
        let mut out = String::new();
        match self {
            Message::Notify { level, .. } => {
                out.append("{\"Notify\":{\"msg\":");
                out.append(quoted);
                out.append(",\"level\":\"");
                out.append(level.name());
                out.append("\"}}");
            },
            Message::Log { level, .. } => {
                out.append("{\"Log\":{\"msg\":");
                out.append(quoted);
                out.append(",\"level\":\"");
                out.append(level.name());
                out.append("\"}}");
            },
            Message::Execute(Task::UpdateStatusline(st)) => {
                out.append("{\"Execute\":{\"UpdateStatusline\":\"");
                out.append(st.name());
                out.append("\"}}");
            },
            Message::Execute(Task::OpenLogger) => {
                out.append("{\"Execute\":\"OpenLogger\"}");
            },
            Message::Execute(Task::ReloadLspServer) => {
                out.append("{\"Execute\":\"ReloadLspServer\"}");
            },
        }
        out.append("\n");
        proof {
            assert(Seq::<char>::empty() + "{\"Execute\":\"OpenLogger\"}"@ =~= "{\"Execute\":\"OpenLogger\"}"@);
            assert(Seq::<char>::empty() + "{\"Execute\":\"ReloadLspServer\"}"@
                =~= "{\"Execute\":\"ReloadLspServer\"}"@);
            assert(Seq::<char>::empty() + "{\"Execute\":{\"UpdateStatusline\":\""@
                =~= "{\"Execute\":{\"UpdateStatusline\":\""@);
            assert(Seq::<char>::empty() + "{\"Notify\":{\"msg\":"@ =~= "{\"Notify\":{\"msg\":"@);
            assert(Seq::<char>::empty() + "{\"Log\":{\"msg\":"@ =~= "{\"Log\":{\"msg\":"@);
        }
        out
    }

    /// The line that carries this message on the socket.
    pub fn to_json_line(&self) -> (r: String)
        ensures
            r@ == message_line(self@),
    {
        let quoted = match self {
            Message::Notify { msg, .. } => quote_json(msg.as_str()),
            Message::Log { msg, .. } => quote_json(msg.as_str()),
            Message::Execute(_) => Some(String::new()),
        };
        match quoted {
            Some(q) => self.line_with_quoted(q.as_str()),
            None => String::new(),
        }
    }
}

} // verus!
