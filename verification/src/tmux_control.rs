//! The client side of tmux's control mode: a line protocol in which the reply
//! to a command stands between a `%begin` and an `%end` marker that carry
//! the same number, with notifications of the server interleaved.
//!
//! Nothing here touches the transport. `ControlClient` gives the text to
//! write for a command and takes each line that was read; `ReplyState::step`
//! says what follows from one line, and `read_reply` does so for a recorded
//! run of lines.
use vstd::prelude::*;
use crate::text::CharClass;
use crate::text::fields;
use crate::text::lemma_fields_hold_no_separator;
use crate::text::parse_u64;
use crate::text::views;
use crate::text::to_chars;
use crate::text::split_fields;
use crate::text::parse_decimal;
use crate::text::starts_with;
use crate::text::trim_end;
use crate::text::scan_back_inside;
use crate::text::to_string;
use crate::text::has_substring;
use crate::text::occurs_at;

verus! {

/// Why a command got no reply.
#[derive(Clone, Debug, PartialEq, Eq)]
pub enum ControlError {
    /// The transport reached its end before the reply did.
    Closed,
    /// The server announced its exit.
    Exited,
    /// The server answered with an error; the line that said so.
    Command(String),
    /// A line that was to carry a number and has fewer than three fields, or
    /// does not begin with `%`; the line.
    Malformed(String),
    /// A marker line whose third field is no number; the line.
    InvalidId(String),
}

/// A `ControlError` over sequences of characters.
pub enum Fault {
    Closed,
    Exited,
    Command(Seq<char>),
    Malformed(Seq<char>),
    InvalidId(Seq<char>),
}

impl Fault {
    /// The text that reports the fault.
    pub open spec fn message(self) -> Seq<char> {
        match self {
            Fault::Closed => "tmux control mode closed unexpectedly"@,
            Fault::Exited => "tmux control mode exited unexpectedly"@,
            Fault::Command(line) => "tmux control error: "@ + line,
            Fault::Malformed(line) => "Malformed tmux control line: "@ + line,
            Fault::InvalidId(line) => "Invalid tmux command id: "@ + line,
        }
    }
}

impl View for ControlError {
    type V = Fault;

    open spec fn view(&self) -> Fault {
        match self {
            ControlError::Closed => Fault::Closed,
            ControlError::Exited => Fault::Exited,
            ControlError::Command(line) => Fault::Command(line@),
            ControlError::Malformed(line) => Fault::Malformed(line@),
            ControlError::InvalidId(line) => Fault::InvalidId(line@),
        }
    }
}

impl ControlError {
    /// The text that reports the error.
    pub fn message(&self) -> (msg: String)
        ensures
            msg@ == self@.message(),
    {
        match self {
            ControlError::Closed => "tmux control mode closed unexpectedly".to_owned(),
            ControlError::Exited => "tmux control mode exited unexpectedly".to_owned(),
            ControlError::Command(line) => "tmux control error: ".to_owned().concat(line.as_str()),
            ControlError::Malformed(line) => "Malformed tmux control line: ".to_owned().concat(
                line.as_str(),
            ),
            ControlError::InvalidId(line) => "Invalid tmux command id: ".to_owned().concat(
                line.as_str(),
            ),
        }
    }
}

/// A result with its error seen as a `Fault`.
pub open spec fn view_result<T>(r: Result<T, ControlError>) -> Result<T, Fault> {
    match r {
        Ok(t) => Ok(t),
        Err(e) => Err(e@),
    }
}

/// What a line of the server is, by the way it begins.
#[derive(Clone, Copy, Debug, PartialEq, Eq)]
pub enum LineKind {
    /// `%exit`: the server is leaving.
    Exit,
    /// `%error`: a command failed.
    Error,
    /// `%begin`: a reply begins.
    Begin,
    /// `%end`: a reply ends.
    End,
    /// Any other line that begins with `%`.
    Notification,
    /// A line that does not begin with `%`.
    Output,
}

/// The kind of a line that has no line ending.
pub open spec fn line_kind(line: Seq<char>) -> LineKind {
    if "%exit"@.is_prefix_of(line) {
        LineKind::Exit
    } else if "%error"@.is_prefix_of(line) {
        LineKind::Error
    } else if "%begin"@.is_prefix_of(line) {
        LineKind::Begin
    } else if "%end"@.is_prefix_of(line) {
        LineKind::End
    } else if line.len() > 0 && line[0] == '%' {
        LineKind::Notification
    } else {
        LineKind::Output
    }
}

/// Classifies a line that has no line ending.
pub fn classify(line: &Vec<char>) -> (kind: LineKind)
    ensures
        kind == line_kind(line@),
{
    if starts_with(line, &to_chars("%exit")) {
        LineKind::Exit
    } else if starts_with(line, &to_chars("%error")) {
        LineKind::Error
    } else if starts_with(line, &to_chars("%begin")) {
        LineKind::Begin
    } else if starts_with(line, &to_chars("%end")) {
        LineKind::End
    } else if line.len() > 0 && line[0] == '%' {
        LineKind::Notification
    } else {
        LineKind::Output
    }
}

/// The number that a marker line carries: the line is split at white space,
/// its first field begins with `%`, a second field follows, and the third
/// is the number.
pub open spec fn command_id(line: Seq<char>) -> Result<u64, Fault> {
    let parts = fields(line, CharClass::Whitespace);
    if parts.len() < 3 || parts[0][0] != '%' {
        Err(Fault::Malformed(line))
    } else {
        match parse_u64(parts[2]) {
            Some(id) => Ok(id),
            None => Err(Fault::InvalidId(line)),
        }
    }
}

/// Reads the number of a `%begin`, `%end` or `%error` line.
pub fn parse_command_id(line: &str) -> (out: Result<u64, ControlError>)
    ensures
        view_result(out) == command_id(line@),
{
    let chars = to_chars(line);
    let parts = split_fields(&chars, CharClass::Whitespace);
    assert(parts@.len() == fields(line@, CharClass::Whitespace).len());
    if parts.len() < 3 {
        return Err(ControlError::Malformed(line.to_owned()));
    }
    assert(views(parts@)[0] == parts@[0]@);
    assert(views(parts@)[2] == parts@[2]@);
    proof {
        lemma_fields_hold_no_separator(line@, CharClass::Whitespace);
    }
    let marker = to_chars(parts[0].as_str());
    if marker[0] != '%' {
        return Err(ControlError::Malformed(line.to_owned()));
    }
    match parse_decimal(&to_chars(parts[2].as_str())) {
        Some(id) => Ok(id),
        None => Err(ControlError::InvalidId(line.to_owned())),
    }
}

/// What stands for `c` inside double quotes: a backslash goes before a
/// backslash and before a double quote.
pub open spec fn escaped_char(c: char) -> Seq<char> {
    if c == '\\' || c == '"' {
        seq!['\\', c]
    } else {
        seq![c]
    }
}

/// `s` with each of its characters escaped.
pub open spec fn escaped(s: Seq<char>) -> Seq<char>
    decreases s.len(),
{
    if s.len() == 0 {
        Seq::empty()
    } else {
        escaped(s.drop_last()) + escaped_char(s.last())
    }
}

/// `s` escaped, between two double quotes.
pub open spec fn quoted(s: Seq<char>) -> Seq<char> {
    seq!['"'] + escaped(s) + seq!['"']
}

/// Quotes one argument of a command: `value` between double quotes, with a
/// backslash before each of its backslashes and double quotes.
pub fn quote_tmux_arg(value: &str) -> (out: String)
    ensures
        out@ == quoted(value@),
{
    let chars = to_chars(value);
    let mut out = String::new();
    out.push('"');
    let mut i: usize = 0;
    assert(chars@.take(0) == Seq::<char>::empty());
    while i < chars.len()
        invariant
            i <= chars.len(),
            out@ == seq!['"'] + escaped(chars@.take(i as int)),
        decreases chars.len() - i,
    {
        let c = chars[i];
        assert(chars@.take(i + 1).drop_last() == chars@.take(i as int));
        if c == '\\' || c == '"' {
            out.push('\\');
        }
        out.push(c);
        i += 1;
    }
    assert(chars@.take(chars.len() as int) == chars@);
    out.push('"');
    out
}

/// The command that opens a window named `name` in `session`, without
/// making it the current one, with `cwd` as its working directory.
pub open spec fn new_window_text(session: Seq<char>, name: Seq<char>, cwd: Seq<char>) -> Seq<
    char,
> {
    "new-window -d -t "@ + quoted(session) + " -n "@ + quoted(name) + " -c "@ + quoted(cwd)
}

/// Composes the `new-window` command, each argument quoted.
pub fn new_window_command(session: &str, name: &str, cwd: &str) -> (out: String)
    ensures
        out@ == new_window_text(session@, name@, cwd@),
{
    let mut out = "new-window -d -t ".to_owned();
    out.append(quote_tmux_arg(session).as_str());
    out.append(" -n ");
    out.append(quote_tmux_arg(name).as_str());
    out.append(" -c ");
    out.append(quote_tmux_arg(cwd).as_str());
    out
}

/// The text that sends `command` to the server: the command and a line feed.
pub fn command_line(command: &str) -> (out: String)
    ensures
        out@ == command@.push('\n'),
{
    let mut out = command.to_owned();
    out.push('\n');
    out
}

/// The arguments with which tmux starts in control mode on the server named
/// `server`, or on the default server.
pub open spec fn connect_arguments(server: Option<Seq<char>>) -> Seq<Seq<char>> {
    match server {
        Some(name) => seq!["-L"@, name, "-C"@],
        None => seq!["-C"@],
    }
}

/// The arguments with which tmux starts in control mode, on the server
/// named `server` if one is given.
pub fn connect_args(server: Option<&str>) -> (args: Vec<String>)
    ensures
        views(args@) == connect_arguments(
            match server {
                Some(name) => Some(name@),
                None => None,
            },
        ),
{
    let mut args: Vec<String> = Vec::new();
    match server {
        Some(name) => {
            args.push("-L".to_owned());
            args.push(name.to_owned());
        },
        None => {},
    }
    args.push("-C".to_owned());
    args
}

/// The arguments with which tmux starts in control mode on the server that
/// listens at `socket_path`.
pub fn connect_with_socket_path_args(socket_path: &str) -> (args: Vec<String>)
    ensures
        views(args@) == seq!["-S"@, socket_path@, "-C"@],
{
    let mut args: Vec<String> = Vec::new();
    args.push("-S".to_owned());
    args.push(socket_path.to_owned());
    args.push("-C".to_owned());
    args
}

/// Where the reading of one reply stands.
#[derive(Clone, Debug, PartialEq, Eq)]
pub enum ReplyState {
    /// No `%begin` has been seen since the command was sent.
    AwaitingBegin,
    /// The reply with number `id` has begun; `output` holds its lines so far.
    Collecting { id: u64, output: Vec<String> },
}

/// A `ReplyState` over sequences of characters.
pub enum Phase {
    AwaitingBegin,
    Collecting { id: u64, output: Seq<Seq<char>> },
}

impl View for ReplyState {
    type V = Phase;

    open spec fn view(&self) -> Phase {
        match self {
            ReplyState::AwaitingBegin => Phase::AwaitingBegin,
            ReplyState::Collecting { id, output } => Phase::Collecting {
                id: *id,
                output: views(output@),
            },
        }
    }
}

/// What one read does to the reading of a reply.
#[derive(Clone, Debug, PartialEq, Eq)]
pub enum ReplyStep {
    /// The reply is not complete: read on, from this state.
    Continue(ReplyState),
    /// The reply is complete; its lines of output, in the order of arrival.
    Complete(Vec<String>),
    /// The command has failed.
    Fail(ControlError),
}

/// A `ReplyStep` over sequences of characters.
pub enum Progress {
    Continue(Phase),
    Complete(Seq<Seq<char>>),
    Fail(Fault),
}

impl View for ReplyStep {
    type V = Progress;

    open spec fn view(&self) -> Progress {
        match self {
            ReplyStep::Continue(state) => Progress::Continue(state@),
            ReplyStep::Complete(output) => Progress::Complete(views(output@)),
            ReplyStep::Fail(error) => Progress::Fail(error@),
        }
    }
}

/// A line as it was read, without the carriage returns and line feeds at
/// its end.
pub open spec fn bare_line(raw: Seq<char>) -> Seq<char> {
    trim_end(raw, CharClass::LineEnding)
}

/// What follows from one read in phase `phase`. `read` is the line as it was
/// read, with its line ending, or `None` where the transport is at its end.
///
/// The end of the transport, an `%exit` line and an `%error` line fail the
/// command. The first `%begin` gives the number of the reply; an `%end`
/// with that number completes it, and one with another number does not.
/// Between the two, the lines that do not begin with `%` are the output.
/// A marker that decides and carries no number fails the command.
pub open spec fn reply_step(phase: Phase, read: Option<Seq<char>>) -> Progress {
    match read {
        None => Progress::Fail(Fault::Closed),
        Some(raw) => {
            let line = bare_line(raw);
            match line_kind(line) {
                LineKind::Exit => Progress::Fail(Fault::Exited),
                LineKind::Error => Progress::Fail(Fault::Command(line)),
                LineKind::Begin => match phase {
                    Phase::AwaitingBegin => match command_id(line) {
                        Ok(id) => Progress::Continue(
                            Phase::Collecting { id, output: Seq::empty() },
                        ),
                        Err(fault) => Progress::Fail(fault),
                    },
                    Phase::Collecting { .. } => Progress::Continue(phase),
                },
                LineKind::End => match phase {
                    Phase::AwaitingBegin => Progress::Continue(phase),
                    Phase::Collecting { id, output } => match command_id(line) {
                        Ok(n) => if n == id {
                            Progress::Complete(output)
                        } else {
                            Progress::Continue(phase)
                        },
                        Err(fault) => Progress::Fail(fault),
                    },
                },
                LineKind::Notification => Progress::Continue(phase),
                LineKind::Output => match phase {
                    Phase::AwaitingBegin => Progress::Continue(phase),
                    Phase::Collecting { id, output } => Progress::Continue(
                        Phase::Collecting { id, output: output.push(line) },
                    ),
                },
            }
        },
    }
}

impl ReplyState {
    /// The state in which a command has just been sent.
    pub fn new() -> (state: ReplyState)
        ensures
            state@ == Phase::AwaitingBegin,
    {
        ReplyState::AwaitingBegin
    }

    /// Takes one read into account: `read` is the line as it came from the
    /// transport, or `None` where the transport gave no more bytes.
    pub fn step(self, read: Option<&str>) -> (next: ReplyStep)
        ensures
            next@ == reply_step(
                self@,
                match read {
                    Some(raw) => Some(raw@),
                    None => None,
                },
            ),
    {
        let raw = match read {
            Some(raw) => raw,
            None => {
                return ReplyStep::Fail(ControlError::Closed);
            },
        };
        let chars = to_chars(raw);
        let end = scan_back_inside(&chars, 0, chars.len(), CharClass::LineEnding);
        assert(chars@.subrange(0, chars.len() as int) == chars@);
        let text = to_string(&chars, 0, end);
        assert(text@ == bare_line(raw@));
        let line = to_chars(text.as_str());
        match classify(&line) {
            LineKind::Exit => ReplyStep::Fail(ControlError::Exited),
            LineKind::Error => ReplyStep::Fail(ControlError::Command(text)),
            LineKind::Begin => match self {
                ReplyState::AwaitingBegin => match parse_command_id(text.as_str()) {
                    Ok(id) => {
                        let output: Vec<String> = Vec::new();
                        assert(views(output@) == Seq::<Seq<char>>::empty());
                        ReplyStep::Continue(ReplyState::Collecting { id, output })
                    },
                    Err(error) => ReplyStep::Fail(error),
                },
                ReplyState::Collecting { id, output } => ReplyStep::Continue(
                    ReplyState::Collecting { id, output },
                ),
            },
            LineKind::End => match self {
                ReplyState::AwaitingBegin => ReplyStep::Continue(ReplyState::AwaitingBegin),
                ReplyState::Collecting { id, output } => match parse_command_id(text.as_str()) {
                    Ok(n) => if n == id {
                        ReplyStep::Complete(output)
                    } else {
                        ReplyStep::Continue(ReplyState::Collecting { id, output })
                    },
                    Err(error) => ReplyStep::Fail(error),
                },
            },
            LineKind::Notification => ReplyStep::Continue(self),
            LineKind::Output => match self {
                ReplyState::AwaitingBegin => ReplyStep::Continue(ReplyState::AwaitingBegin),
                ReplyState::Collecting { id, output } => {
                    let mut output = output;
                    assert(views(output@.push(text)) == views(output@).push(text@));
                    output.push(text);
                    ReplyStep::Continue(ReplyState::Collecting { id, output })
                },
            },
        }
    }
}

/// The outcome of reading a reply: its lines of output, or why there are none.
pub open spec fn view_reply(r: Result<Vec<String>, ControlError>) -> Result<Seq<Seq<char>>, Fault> {
    match r {
        Ok(output) => Ok(views(output@)),
        Err(error) => Err(error@),
    }
}

/// Reads `lines` from index `at` on, in phase `phase`, until a line decides.
/// Gives the outcome and the index of the line after the last one read.
/// Where the lines end before one decides, the transport is at its end.
pub open spec fn run_reply(phase: Phase, lines: Seq<Seq<char>>, at: int) -> (
    Result<Seq<Seq<char>>, Fault>,
    int,
)
    decreases lines.len() - at,
{
    if at < 0 || at >= lines.len() {
        (Err(Fault::Closed), at)
    } else {
        match reply_step(phase, Some(lines[at])) {
            Progress::Continue(next) => run_reply(next, lines, at + 1),
            Progress::Complete(output) => (Ok(output), at + 1),
            Progress::Fail(fault) => (Err(fault), at + 1),
        }
    }
}

/// The reply to a command that was sent when the server's line `from` was
/// the next to be read.
pub open spec fn reply_of(lines: Seq<Seq<char>>, from: int) -> (Result<Seq<Seq<char>>, Fault>, int) {
    run_reply(Phase::AwaitingBegin, lines, from)
}

/// Reads the reply to one command from a recorded run of the server's lines,
/// each as it came from the transport, beginning at index `from`. Gives the
/// reply and the index at which the reading of the next reply begins.
pub fn read_reply(lines: &Vec<String>, from: usize) -> (out: (
    Result<Vec<String>, ControlError>,
    usize,
))
    ensures
        (view_reply(out.0), out.1 as int) == reply_of(views(lines@), from as int),
{
    let mut state = ReplyState::new();
    let mut at: usize = from;
    while at < lines.len()
        invariant
            from <= at,
            run_reply(state@, views(lines@), at as int) == reply_of(views(lines@), from as int),
        decreases lines.len() - at,
    {
        assert(views(lines@)[at as int] == lines@[at as int]@);
        match state.step(Some(lines[at].as_str())) {
            ReplyStep::Continue(next) => {
                state = next;
            },
            ReplyStep::Complete(output) => {
                return (Ok(output), at + 1);
            },
            ReplyStep::Fail(error) => {
                return (Err(error), at + 1);
            },
        }
        at += 1;
    }
    (Err(ControlError::Closed), at)
}

/// The kind of line `i`.
pub open spec fn kind_at(lines: Seq<Seq<char>>, i: int) -> LineKind {
    line_kind(bare_line(lines[i]))
}

/// The number that line `i` carries.
pub open spec fn id_at(lines: Seq<Seq<char>>, i: int) -> Result<u64, Fault> {
    command_id(bare_line(lines[i]))
}

/// The lines from `lo` up to `hi` that do not begin with `%`, without their
/// line endings.
pub open spec fn output_between(lines: Seq<Seq<char>>, lo: int, hi: int) -> Seq<Seq<char>>
    decreases hi - lo,
{
    if lo >= hi {
        Seq::empty()
    } else if kind_at(lines, hi - 1) == LineKind::Output {
        output_between(lines, lo, hi - 1).push(bare_line(lines[hi - 1]))
    } else {
        output_between(lines, lo, hi - 1)
    }
}

/// Line `begin` is the first `%begin` from `from` on and carries `id`; line
/// `end` is the first `%end` after it that carries `id`; every `%end`
/// between the two carries another number; and no line from `from` up to
/// `end` is an `%exit` or an `%error`.
pub open spec fn is_reply_block(lines: Seq<Seq<char>>, from: int, begin: int, end: int, id: u64) -> bool {
    &&& 0 <= from <= begin < end < lines.len()
    &&& forall|i: int|
        from <= i < end ==> #[trigger] kind_at(lines, i) != LineKind::Exit && kind_at(lines, i)
            != LineKind::Error
    &&& forall|i: int| from <= i < begin ==> #[trigger] kind_at(lines, i) != LineKind::Begin
    &&& kind_at(lines, begin) == LineKind::Begin
    &&& id_at(lines, begin) == Ok::<u64, Fault>(id)
    &&& forall|i: int|
        begin < i < end && #[trigger] kind_at(lines, i) == LineKind::End ==> (id_at(lines, i) matches Ok(
            n,
        ) && n != id)
    &&& kind_at(lines, end) == LineKind::End
    &&& id_at(lines, end) == Ok::<u64, Fault>(id)
}

proof fn lemma_collecting_reaches_end(lines: Seq<Seq<char>>, from: int, begin: int, end: int, id: u64, at: int)
    requires
        is_reply_block(lines, from, begin, end, id),
        begin < at <= end,
    ensures
        run_reply(
            Phase::Collecting { id, output: output_between(lines, begin + 1, at) },
            lines,
            at,
        ) == (Ok::<Seq<Seq<char>>, Fault>(output_between(lines, begin + 1, end)), end + 1),
    decreases end - at,
{
    if at < end {
        let k = kind_at(lines, at);
        lemma_collecting_reaches_end(lines, from, begin, end, id, at + 1);
    }
}

proof fn lemma_awaiting_reaches_begin(lines: Seq<Seq<char>>, from: int, begin: int, end: int, id: u64, at: int)
    requires
        is_reply_block(lines, from, begin, end, id),
        from <= at <= begin,
    ensures
        run_reply(Phase::AwaitingBegin, lines, at) == run_reply(
            Phase::Collecting { id, output: Seq::empty() },
            lines,
            begin + 1,
        ),
    decreases begin - at,
{
    if at < begin {
        let k = kind_at(lines, at);
        lemma_awaiting_reaches_begin(lines, from, begin, end, id, at + 1);
    }
}

/// Where the server's lines hold a block for the command, its reply is the
/// output between the block's markers, and the next reading begins after
/// the closing marker.
pub proof fn lemma_block_is_the_reply(lines: Seq<Seq<char>>, from: int, begin: int, end: int, id: u64)
    requires
        is_reply_block(lines, from, begin, end, id),
    ensures
        reply_of(lines, from) == (
            Ok::<Seq<Seq<char>>, Fault>(output_between(lines, begin + 1, end)),
            end + 1,
        ),
{
    lemma_awaiting_reaches_begin(lines, from, begin, end, id, from);
    lemma_collecting_reaches_end(lines, from, begin, end, id, begin + 1);
}

proof fn lemma_collecting_ends_at_marker(lines: Seq<Seq<char>>, begin: int, id: u64, at: int)
    requires
        0 <= begin < at,
        run_reply(
            Phase::Collecting { id, output: output_between(lines, begin + 1, at) },
            lines,
            at,
        ).0 is Ok,
    ensures
        ({
            let (reply, next) = run_reply(
                Phase::Collecting { id, output: output_between(lines, begin + 1, at) },
                lines,
                at,
            );
            &&& at < next <= lines.len()
            &&& reply == Ok::<Seq<Seq<char>>, Fault>(output_between(lines, begin + 1, next - 1))
            &&& kind_at(lines, next - 1) == LineKind::End
            &&& id_at(lines, next - 1) == Ok::<u64, Fault>(id)
            &&& forall|i: int|
                at <= i < next - 1 ==> #[trigger] kind_at(lines, i) != LineKind::Exit && kind_at(
                    lines,
                    i,
                ) != LineKind::Error
            &&& forall|i: int|
                at <= i < next - 1 && #[trigger] kind_at(lines, i) == LineKind::End ==> (id_at(
                    lines,
                    i,
                ) matches Ok(n) && n != id)
        }),
    decreases lines.len() - at,
{
    if at < lines.len() {
        let phase = Phase::Collecting { id, output: output_between(lines, begin + 1, at) };
        match reply_step(phase, Some(lines[at])) {
            Progress::Continue(next) => {
                assert(next == Phase::Collecting {
                    id,
                    output: output_between(lines, begin + 1, at + 1),
                });
                lemma_collecting_ends_at_marker(lines, begin, id, at + 1);
            },
            Progress::Complete(output) => {},
            Progress::Fail(fault) => {},
        }
    }
}

proof fn lemma_awaiting_finds_begin(lines: Seq<Seq<char>>, at: int) -> (found: (int, u64))
    requires
        0 <= at,
        run_reply(Phase::AwaitingBegin, lines, at).0 is Ok,
    ensures
        at <= found.0 < lines.len(),
        kind_at(lines, found.0) == LineKind::Begin,
        id_at(lines, found.0) == Ok::<u64, Fault>(found.1),
        forall|i: int|
            at <= i < found.0 ==> #[trigger] kind_at(lines, i) != LineKind::Exit && kind_at(lines, i)
                != LineKind::Error && kind_at(lines, i) != LineKind::Begin,
        run_reply(Phase::AwaitingBegin, lines, at) == run_reply(
            Phase::Collecting { id: found.1, output: Seq::empty() },
            lines,
            found.0 + 1,
        ),
    decreases lines.len() - at,
{
    if at < lines.len() {
        match reply_step(Phase::AwaitingBegin, Some(lines[at])) {
            Progress::Continue(Phase::AwaitingBegin) => {
                lemma_awaiting_finds_begin(lines, at + 1)
            },
            Progress::Continue(Phase::Collecting { id, output }) => { (at, id) },
            _ => { (at, 0) },
        }
    } else {
        (at, 0)
    }
}

/// A reply is never read from anything but a block: where the reading
/// succeeds, the server's lines hold a block for the command, the closing
/// marker is the last line read, and the reply is the output between the
/// block's markers.
pub proof fn lemma_reply_is_a_block(lines: Seq<Seq<char>>, from: int)
    requires
        0 <= from,
        reply_of(lines, from).0 is Ok,
    ensures
        exists|begin: int, id: u64|
            {
                &&& #[trigger] is_reply_block(lines, from, begin, reply_of(lines, from).1 - 1, id)
                &&& reply_of(lines, from).0 == Ok::<Seq<Seq<char>>, Fault>(
                    output_between(lines, begin + 1, reply_of(lines, from).1 - 1),
                )
            },
{
    let (begin, id) = lemma_awaiting_finds_begin(lines, from);
    lemma_collecting_ends_at_marker(lines, begin, id, begin + 1);
    assert(is_reply_block(lines, from, begin, reply_of(lines, from).1 - 1, id));
}

proof fn lemma_run_ignores_later_lines(phase: Phase, lines: Seq<Seq<char>>, more: Seq<Seq<char>>, at: int)
    requires
        0 <= at,
        run_reply(phase, lines, at).0 != Err::<Seq<Seq<char>>, Fault>(Fault::Closed),
    ensures
        run_reply(phase, lines + more, at) == run_reply(phase, lines, at),
    decreases lines.len() - at,
{
    if at < lines.len() {
        assert((lines + more)[at] == lines[at]);
        match reply_step(phase, Some(lines[at])) {
            Progress::Continue(next) => {
                lemma_run_ignores_later_lines(next, lines, more, at + 1);
            },
            Progress::Complete(output) => {},
            Progress::Fail(fault) => {},
        }
    }
}

/// What the server sends after the line that decided a reply has no part in
/// that reply: neither the lines of a later command nor its markers change
/// the reply or the place at which the next reading begins.
pub proof fn lemma_reply_ignores_later_lines(lines: Seq<Seq<char>>, more: Seq<Seq<char>>, from: int)
    requires
        0 <= from,
        reply_of(lines, from).0 != Err::<Seq<Seq<char>>, Fault>(Fault::Closed),
    ensures
        reply_of(lines + more, from) == reply_of(lines, from),
{
    lemma_run_ignores_later_lines(Phase::AwaitingBegin, lines, more, from);
}

/// An `%end` that carries another number than the reply's `%begin` does not
/// complete the reply: the reading goes on in the same state.
pub proof fn lemma_mismatched_end_reads_on(id: u64, output: Seq<Seq<char>>, raw: Seq<char>, n: u64)
    requires
        line_kind(bare_line(raw)) == LineKind::End,
        command_id(bare_line(raw)) == Ok::<u64, Fault>(n),
        n != id,
    ensures
        reply_step(Phase::Collecting { id, output }, Some(raw)) == Progress::Continue(
            Phase::Collecting { id, output },
        ),
{
}

/// A reply is complete only at an `%end` that carries the number of its
/// `%begin`, and then it is the output collected so far.
pub proof fn lemma_complete_needs_matching_end(phase: Phase, read: Option<Seq<char>>)
    requires
        reply_step(phase, read) is Complete,
    ensures
        read is Some,
        line_kind(bare_line(read->0)) == LineKind::End,
        phase matches Phase::Collecting { id, output } && command_id(bare_line(read->0)) == Ok::<
            u64,
            Fault,
        >(id) && reply_step(phase, read) == Progress::Complete(output),
{
}

/// An `%error` line fails the command in every phase, and the failure's
/// message holds the line as it stands.
pub proof fn lemma_error_line_fails(phase: Phase, raw: Seq<char>)
    requires
        line_kind(bare_line(raw)) == LineKind::Error,
    ensures
        reply_step(phase, Some(raw)) == Progress::Fail(Fault::Command(bare_line(raw))),
        has_substring(Fault::Command(bare_line(raw)).message(), bare_line(raw)),
{
    let line = bare_line(raw);
    let head = "tmux control error: "@;
    assert((head + line).subrange(head.len() as int, (head.len() + line.len()) as int) == line);
    assert(occurs_at(head + line, head.len() as int, line));
}

/// The client's side of one connection: how the server is reached, and the
/// reading of the reply to the command in flight. There is at most one such
/// command at any time.
///
/// The client holds no process. Its caller starts tmux with `args`, writes
/// what `command` gives, and hands each line that it reads to `receive`.
pub struct ControlClient {
    args: Vec<String>,
    reply: Option<ReplyState>,
}

/// A `ControlClient` over sequences.
pub struct Session {
    /// The arguments with which tmux is started.
    pub args: Seq<Seq<char>>,
    /// The reading of the reply to the command in flight, if there is one.
    pub reply: Option<Phase>,
}

impl Session {
    /// The session after a command was sent: its reply is awaited, and what
    /// was read of an earlier reply is dropped.
    pub open spec fn sent(self) -> Session {
        Session { reply: Some(Phase::AwaitingBegin), ..self }
    }

    /// What one read gives to the caller: the reply once it is complete, the
    /// fault once the command has failed, and nothing while the reply is
    /// incomplete or no command is in flight.
    pub open spec fn delivered(self, read: Option<Seq<char>>) -> Option<Result<Seq<Seq<char>>, Fault>> {
        match self.reply {
            None => None,
            Some(phase) => match reply_step(phase, read) {
                Progress::Continue(_) => None,
                Progress::Complete(output) => Some(Ok(output)),
                Progress::Fail(fault) => Some(Err(fault)),
            },
        }
    }

    /// The session after one read. Without a command in flight, what the
    /// server sends belongs to no reply and changes nothing.
    pub open spec fn received(self, read: Option<Seq<char>>) -> Session {
        match self.reply {
            None => self,
            Some(phase) => match reply_step(phase, read) {
                Progress::Continue(next) => Session { reply: Some(next), ..self },
                _ => Session { reply: None, ..self },
            },
        }
    }
}

impl View for ControlClient {
    type V = Session;

    closed spec fn view(&self) -> Session {
        Session {
            args: views(self.args@),
            reply: match self.reply {
                Some(state) => Some(state@),
                None => None,
            },
        }
    }
}

impl ControlClient {
    /// A client for the server named `server`, or for the default server.
    pub fn connect(server: Option<&str>) -> (client: ControlClient)
        ensures
            client@ == (Session {
                args: connect_arguments(
                    match server {
                        Some(name) => Some(name@),
                        None => None,
                    },
                ),
                reply: None,
            }),
    {
        ControlClient { args: connect_args(server), reply: None }
    }

    /// A client for the server that listens at `socket_path`.
    pub fn connect_with_socket_path(socket_path: &str) -> (client: ControlClient)
        ensures
            client@ == (Session { args: seq!["-S"@, socket_path@, "-C"@], reply: None }),
    {
        ControlClient { args: connect_with_socket_path_args(socket_path), reply: None }
    }

    /// The arguments with which tmux is to be started.
    pub fn args(&self) -> (args: &Vec<String>)
        ensures
            views(args@) == self@.args,
    {
        &self.args
    }

    /// Whether a command is in flight.
    pub fn awaiting(&self) -> (b: bool)
        ensures
            b == self@.reply is Some,
    {
        self.reply.is_some()
    }

    /// Sends `cmd`: gives the text to write to the server, which is to be
    /// flushed at once, and awaits the reply.
    pub fn command(&mut self, cmd: &str) -> (text: String)
        ensures
            text@ == cmd@.push('\n'),
            final(self)@ == old(self)@.sent(),
    {
        self.reply = Some(ReplyState::new());
        command_line(cmd)
    }

    /// Sends the command that opens a window named `name` in `session`, with
    /// `cwd` as its working directory.
    pub fn new_window(&mut self, session: &str, name: &str, cwd: &str) -> (text: String)
        ensures
            text@ == new_window_text(session@, name@, cwd@).push('\n'),
            final(self)@ == old(self)@.sent(),
    {
        let command = new_window_command(session, name, cwd);
        self.command(command.as_str())
    }

    /// Takes one read from the server: a line as it came, or `None` where
    /// the transport gave no more bytes. Gives the reply to the command in
    /// flight once it is complete, or why there is none.
    pub fn receive(&mut self, read: Option<&str>) -> (out: Option<Result<Vec<String>, ControlError>>)
        ensures
            final(self)@ == old(self)@.received(
                match read {
                    Some(raw) => Some(raw@),
                    None => None,
                },
            ),
            match out {
                Some(reply) => old(self)@.delivered(
                    match read {
                        Some(raw) => Some(raw@),
                        None => None,
                    },
                ) == Some(view_reply(reply)),
                None => old(self)@.delivered(
                    match read {
                        Some(raw) => Some(raw@),
                        None => None,
                    },
                ) is None,
            },
    {
        match self.reply.take() {
            None => None,
            Some(state) => match state.step(read) {
                ReplyStep::Continue(next) => {
                    self.reply = Some(next);
                    None
                },
                ReplyStep::Complete(output) => Some(Ok(output)),
                ReplyStep::Fail(error) => Some(Err(error)),
            },
        }
    }
}

} // verus!
