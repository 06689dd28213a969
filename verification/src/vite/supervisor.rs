//! Supervision of the backend: the command line it is started with, what is
//! read from its output, and what is relayed to the log.
//!
//! The host spawns the process and owns the pipe, the reader thread and the
//! channel. What to start, what each line means and when the reader stops is
//! decided here.

use crate::text::{
    after_last, after_last_index, contains, decimal, decimal_string, holds, opt_text, parse_u16,
    parse_u16_from, string_of_range, texts, to_chars, trim, trimmed,
};
use crate::vite::options::{
    after_update_port, visible, CellView, ConfigCell, Level, LockError, ViteProxyOptions,
};
use crate::vite::resolver::{
    find_vite_executable, resolution, CommandView, ResolveError, ResolveFailure, ResolvedCommand,
    ResolverProbe,
};
use vstd::prelude::*;

verus! {

/// The text that is left of `text` once its ANSI escape sequences are taken
/// out, as `strip_ansi_escapes::strip_str` computes it.
pub uninterp spec fn ansi_stripped(text: Seq<char>) -> Seq<char>;

/// What the named group `group` holds in the leftmost match of the regular
/// expression `pattern` in `text`, as the `regex` crate computes it; `None`
/// where the pattern does not compile, does not match, or the group took no
/// part in the match.
pub uninterp spec fn regex_named_capture(
    pattern: Seq<char>,
    group: Seq<char>,
    text: Seq<char>,
) -> Option<Seq<char>>;

/// Calls `strip_ansi_escapes::strip_str`. The result depends on `text`
/// alone; nothing more is claimed of it.
#[verifier::external_body]
fn strip_ansi(text: &str) -> (plain: String)
    ensures
        plain@ == ansi_stripped(text@),
{
    strip_ansi_escapes::strip_str(text)
}

/// Compiles `pattern` with `regex::Regex::new`, runs `Regex::captures` on
/// `text` and reads the group `group` with `Captures::name`. The result
/// depends on the three texts alone; nothing more is claimed of it.
#[verifier::external_body]
fn capture_named(pattern: &str, group: &str, text: &str) -> (hit: Option<String>)
    ensures
        opt_text(hit) == regex_named_capture(pattern@, group@, text@),
{
    match regex::Regex::new(pattern) {
        Ok(compiled) => match compiled.captures(text) {
            Some(found) => match found.name(group) {
                Some(part) => Some(part.as_str().to_string()),
                None => None,
            },
            None => None,
        },
        Err(_) => None,
    }
}

/// The pattern that finds the backend's address in a line of its output.
pub const URL_PATTERN: &'static str = "(?P<url>http://localhost:\\d+).*";

/// The name of the group of [`URL_PATTERN`] that holds the address.
pub const URL_GROUP: &'static str = "url";

/// A line announces the backend's address when it holds both of these.
pub open spec fn is_announcement(text: Seq<char>) -> bool {
    contains(text, "Local"@) && contains(text, "http://localhost:"@)
}

/// The port at the end of an address: the digits behind its last colon.
pub open spec fn port_of_url(url: Seq<char>) -> Option<u16> {
    parse_u16(after_last(url, ':'))
}

/// The port that a line of output announces, given the address that the
/// pattern captured in it.
pub open spec fn announced_port(text: Seq<char>, capture: Option<Seq<char>>) -> Option<u16> {
    if is_announcement(text) && capture is Some {
        port_of_url(capture->0)
    } else {
        None
    }
}

/// The copy of a line that is searched for the port: trimmed and freed of
/// ANSI escapes.
pub open spec fn searched_text(line: Seq<char>) -> Seq<char> {
    ansi_stripped(trim(line))
}

/// The port that a line of the backend's output announces: its searched
/// copy is looked through with [`URL_PATTERN`].
pub open spec fn line_port(line: Seq<char>) -> Option<u16> {
    announced_port(
        searched_text(line),
        regex_named_capture(URL_PATTERN@, URL_GROUP@, searched_text(line)),
    )
}

/// A line as it was read, without its line ending: a final line feed goes,
/// and a carriage return before it. Nothing else is touched.
pub open spec fn without_line_ending(line: Seq<char>) -> Seq<char> {
    if line.len() > 0 && line.last() == '\n' {
        let rest = line.drop_last();
        if rest.len() > 0 && rest.last() == '\r' {
            rest.drop_last()
        } else {
            rest
        }
    } else {
        line
    }
}

/// Reads the port at the end of an address such as `http://localhost:5173`.
pub fn port_from_url(url: &str) -> (port: Option<u16>)
    ensures
        port == port_of_url(url@),
{
    let chars = to_chars(url);
    let k = after_last_index(&chars, ':');
    parse_u16_from(&chars, k)
}

/// Whether a line, trimmed and freed of escapes, announces the backend's
/// address.
pub fn announces_address(text: &str) -> (hit: bool)
    ensures
        hit == is_announcement(text@),
{
    let chars = to_chars(text);
    holds(&chars, "Local") && holds(&chars, "http://localhost:")
}

/// The port announced by `text`, the searched copy of a line, in which the
/// pattern captured `capture`.
pub fn port_announcement(text: &str, capture: Option<String>) -> (port: Option<u16>)
    ensures
        port == announced_port(text@, opt_text(capture)),
{
    if !announces_address(text) {
        return None;
    }
    match capture {
        Some(url) => port_from_url(url.as_str()),
        None => None,
    }
}

/// The port that a line announces. The line itself is left as it is; a
/// trimmed copy without escapes is what is searched.
pub fn port_in_line(line: &str) -> (port: Option<u16>)
    ensures
        port == line_port(line@),
{
    let copy = trimmed(line);
    let plain = strip_ansi(copy.as_str());
    if !announces_address(plain.as_str()) {
        return None;
    }
    let capture = capture_named(URL_PATTERN, URL_GROUP, plain.as_str());
    port_announcement(plain.as_str(), capture)
}

/// A line as it goes to the log relay: as it was read, without its line
/// ending.
pub fn strip_line_ending(line: &str) -> (out: String)
    ensures
        out@ == without_line_ending(line@),
{
    let chars = to_chars(line);
    let n = chars.len();
    if n > 0 && chars[n - 1] == '\n' {
        assert(chars@.drop_last() == chars@.subrange(0, n - 1));
        if n > 1 && chars[n - 2] == '\r' {
            assert(chars@.drop_last().drop_last() == chars@.subrange(0, n - 2));
            string_of_range(&chars, 0, n - 2)
        } else {
            string_of_range(&chars, 0, n - 1)
        }
    } else {
        assert(chars@.subrange(0, n as int) == chars@);
        string_of_range(&chars, 0, n)
    }
}

/// What one line of the backend's output amounts to.
#[derive(Debug)]
pub struct LineScan {
    /// The line as it goes to the log relay: verbatim, escapes and leading
    /// space kept, only the line ending gone.
    pub forwarded: String,
    /// The port the line announces, if it announces one.
    pub port: Option<u16>,
}

/// Reads one line of the backend's output.
pub fn scan_line(line: &str) -> (scan: LineScan)
    ensures
        scan.forwarded@ == without_line_ending(line@),
        scan.port == line_port(line@),
{
    LineScan { forwarded: strip_line_ending(line), port: port_in_line(line) }
}

/// What is forwarded of a line is the line itself up to its ending: every
/// character before the ending is kept, in place, and what is cut is a line
/// feed, alone or behind a carriage return.
pub proof fn lemma_forwarded_verbatim(line: Seq<char>)
    ensures
        without_line_ending(line) + seq!['\r', '\n'] == line || without_line_ending(line) + seq![
            '\n',
        ] == line || without_line_ending(line) == line,
        without_line_ending(line) == line.take(without_line_ending(line).len() as int),
        without_line_ending(line) != line ==> line.last() == '\n',
{
    let out = without_line_ending(line);
    if line.len() > 0 && line.last() == '\n' {
        let rest = line.drop_last();
        assert(rest + seq!['\n'] == line);
        if rest.len() > 0 && rest.last() == '\r' {
            assert(rest.drop_last() + seq!['\r', '\n'] == line);
        }
    }
    assert(out == line.take(out.len() as int));
}

/// The search for the port does not depend on the line ending: the line as
/// it was read and the line as it is forwarded announce the same port.
pub proof fn lemma_line_ending_is_not_searched(line: Seq<char>)
    ensures
        searched_text(without_line_ending(line)) == searched_text(line),
        line_port(without_line_ending(line)) == line_port(line),
{
    if line.len() > 0 && line.last() == '\n' {
        let rest = line.drop_last();
        assert(rest.push('\n') == line);
        crate::text::lemma_trim_ignores_trailing_space(rest, '\n');
        if rest.len() > 0 && rest.last() == '\r' {
            assert(rest.drop_last().push('\r') == rest);
            crate::text::lemma_trim_ignores_trailing_space(rest.drop_last(), '\r');
        }
    }
}

/// What is spawned: a program, its arguments and the directory it runs in.
#[derive(Debug)]
pub struct BackendCommand {
    /// The executable or command name.
    pub program: String,
    /// The arguments, in order.
    pub args: Vec<String>,
    /// The directory the process is started in.
    pub current_dir: String,
}

/// Why the backend could not be started.
#[derive(Debug)]
pub enum StartError {
    /// No command could be resolved; the text lists what was tried.
    NotFound(String),
    /// The search-path lookup printed bytes that are not text.
    UndecodableLookup,
    /// The process could not be launched.
    SpawnFailed,
    /// The process was launched but its output pipe was not available.
    StdoutCaptureFailure,
}

/// What the contracts say of a start: on success the program and its
/// arguments, on failure the kind of failure.
pub enum StartView {
    Command { program: Seq<char>, args: Seq<Seq<char>>, current_dir: Seq<char> },
    NotFound(Seq<char>),
    UndecodableLookup,
    SpawnFailed,
    StdoutCaptureFailure,
}

impl View for BackendCommand {
    type V = StartView;

    open spec fn view(&self) -> StartView {
        StartView::Command {
            program: self.program@,
            args: texts(self.args@),
            current_dir: self.current_dir@,
        }
    }
}

/// What the contracts say of the result of planning a start.
pub open spec fn start_view(out: Result<BackendCommand, StartError>) -> StartView {
    match out {
        Ok(command) => command@,
        Err(StartError::NotFound(text)) => StartView::NotFound(text@),
        Err(StartError::UndecodableLookup) => StartView::UndecodableLookup,
        Err(StartError::SpawnFailed) => StartView::SpawnFailed,
        Err(StartError::StdoutCaptureFailure) => StartView::StdoutCaptureFailure,
    }
}

/// The arguments that pin the backend's port, where one is configured.
pub open spec fn port_arguments(port: Option<u16>) -> Seq<Seq<char>> {
    match port {
        Some(p) => seq!["--port"@, decimal(p as nat)],
        None => Seq::empty(),
    }
}

/// What is spawned for a resolved command: its program, whole; its
/// arguments, followed by `--port <N>` where a port is configured; in the
/// working directory.
pub open spec fn command_plan(
    command: CommandView,
    port: Option<u16>,
    working_directory: Seq<char>,
) -> StartView {
    StartView::Command {
        program: command.program,
        args: command.args + port_arguments(port),
        current_dir: working_directory,
    }
}

/// What starting the backend amounts to, given what the host found on the
/// machine: the resolution fails first, then the command line is built.
pub open spec fn start_plan(options: ViteProxyOptions, probe: ResolverProbe) -> StartView {
    match resolution(options.working_directory@, probe) {
        Ok(command) => command_plan(command, options.port, options.working_directory@),
        Err(ResolveFailure::NotFound(text)) => StartView::NotFound(text),
        Err(ResolveFailure::UndecodableLookup) => StartView::UndecodableLookup,
    }
}

/// Builds what is spawned from the resolved command: a configured port is
/// appended to its arguments.
pub fn command_line(options: &ViteProxyOptions, command: ResolvedCommand) -> (out: BackendCommand)
    ensures
        out@ == command_plan(command@, options.port, options.working_directory@),
{
    let ghost given = texts(command.args@);
    let program = command.program;
    let mut args = command.args;
    if let Some(port) = options.port {
        let flag = String::from_str("--port");
        let number = decimal_string(port as u64);
        let ghost before = args@;
        args.push(flag);
        args.push(number);
        assert(texts(args@) == texts(before) + seq!["--port"@, decimal(port as nat)]);
    } else {
        assert(given + Seq::<Seq<char>>::empty() == given);
    }
    BackendCommand { program, args, current_dir: options.working_directory.clone() }
}

/// Plans the start of the backend: resolves the command from what `probe`
/// recorded and builds its command line. The host spawns what is returned.
pub fn start_vite_server(options: &ViteProxyOptions, probe: &ResolverProbe) -> (out: Result<
    BackendCommand,
    StartError,
>)
    ensures
        start_view(out) == start_plan(*options, *probe),
{
    match find_vite_executable(options, probe) {
        Ok(command) => Ok(command_line(options, command)),
        Err(ResolveError::NotFound(text)) => Err(StartError::NotFound(text)),
        Err(ResolveError::UndecodableLookup) => Err(StartError::UndecodableLookup),
    }
}

impl StartError {
    /// The message that goes with the failure.
    pub fn message(&self) -> (text: String)
        ensures
            text@ == match *self {
                StartError::NotFound(found) => found@,
                StartError::UndecodableLookup => "Vite lookup printed invalid text"@,
                StartError::SpawnFailed => "Failed to start Vite process"@,
                StartError::StdoutCaptureFailure => "Failed to capture Vite process stdout"@,
            },
    {
        match self {
            StartError::NotFound(found) => found.clone(),
            StartError::UndecodableLookup => String::from_str("Vite lookup printed invalid text"),
            StartError::SpawnFailed => String::from_str("Failed to start Vite process"),
            StartError::StdoutCaptureFailure => String::from_str(
                "Failed to capture Vite process stdout",
            ),
        }
    }
}

/// The program of what is spawned is the resolved program, whole; the
/// resolved arguments come first and unchanged; with a port configured the
/// last two arguments are `--port` and the port in decimal, and without one
/// nothing is added.
pub proof fn lemma_planned_command(command: CommandView, port: Option<u16>, directory: Seq<char>)
    ensures
        command_plan(command, port, directory) is Command,
        command_plan(command, port, directory)->program == command.program,
        command_plan(command, port, directory)->current_dir == directory,
        command_plan(command, port, directory)->args.take(command.args.len() as int)
            == command.args,
        port is None ==> command_plan(command, port, directory)->args == command.args,
        port is Some ==> command_plan(command, port, directory)->args.len() == command.args.len()
            + 2 && command_plan(command, port, directory)->args[command.args.len() as int]
            == "--port"@ && command_plan(command, port, directory)->args.last() == decimal(
            port->0 as nat,
        ),
{
    let args = command.args + port_arguments(port);
    assert(args.take(command.args.len() as int) == command.args);
    if port is None {
        assert(args == command.args);
    }
}

/// A path that the resolver found is spawned as one program without
/// arguments of its own, whatever characters it holds: with the override
/// `/opt/my tools/vite` the program is `/opt/my tools/vite`.
pub proof fn lemma_override_is_spawned_whole(options: ViteProxyOptions, probe: ResolverProbe)
    requires
        probe.override_path is Some,
        probe.override_exists,
    ensures
        start_plan(options, probe) is Command,
        start_plan(options, probe)->program == probe.override_path->0@,
        start_plan(options, probe)->args == port_arguments(options.port),
        options.port is None ==> start_plan(options, probe)->args.len() == 0,
{
    assert(Seq::<Seq<char>>::empty() + port_arguments(options.port) == port_arguments(
        options.port,
    ));
}

/// Where the reader of the backend's output stands.
#[derive(Clone, Copy, Debug, PartialEq, Eq, Structural)]
pub enum ReaderState {
    /// Lines are being read.
    Reading,
    /// The stream ended or failed; nothing is read any more.
    Stopped,
}

/// What a blocking read from the backend's output returned.
#[derive(Debug)]
pub enum ReadEvent {
    /// A line, with its line ending.
    Line(String),
    /// Zero bytes: the stream has ended.
    EndOfStream,
    /// The read failed.
    Failed,
}

/// What the reader does after a read.
#[derive(Debug)]
pub struct ReadStep {
    /// The state after the read.
    pub state: ReaderState,
    /// The line to hand to the log relay, verbatim but for its line ending;
    /// `None` when nothing is to be sent.
    pub forward: Option<String>,
    /// The port to record in the shared options, if the line announced one.
    pub port: Option<u16>,
}

/// The state after a read: only the end of the stream and a failed read
/// stop the reader.
pub open spec fn state_after_read(state: ReaderState, event: ReadEvent) -> ReaderState {
    match (state, event) {
        (ReaderState::Reading, ReadEvent::Line(_)) => ReaderState::Reading,
        _ => ReaderState::Stopped,
    }
}

/// The line that goes to the relay after a read.
pub open spec fn forwarded_after_read(state: ReaderState, event: ReadEvent) -> Option<Seq<char>> {
    match (state, event) {
        (ReaderState::Reading, ReadEvent::Line(line)) => Some(without_line_ending(line@)),
        _ => None,
    }
}

/// The port to record after a read.
pub open spec fn port_after_read(state: ReaderState, event: ReadEvent) -> Option<u16> {
    match (state, event) {
        (ReaderState::Reading, ReadEvent::Line(line)) => line_port(line@),
        _ => None,
    }
}

/// The reader's transition on a read. A line is handed on as it was read,
/// without its line ending, and a copy of it is searched for the backend's
/// port. The end of the stream and a failed read stop the reader, and a
/// stopped reader stays stopped. Whether the relay takes the line has no
/// part in this.
pub fn on_read(state: ReaderState, event: ReadEvent) -> (step: ReadStep)
    ensures
        step.state == state_after_read(state, event),
        opt_text(step.forward) == forwarded_after_read(state, event),
        step.port == port_after_read(state, event),
{
    match state {
        ReaderState::Stopped => ReadStep { state: ReaderState::Stopped, forward: None, port: None },
        ReaderState::Reading => match event {
            ReadEvent::Line(line) => {
                let scan = scan_line(line.as_str());
                ReadStep {
                    state: ReaderState::Reading,
                    forward: Some(scan.forwarded),
                    port: scan.port,
                }
            },
            ReadEvent::EndOfStream => ReadStep {
                state: ReaderState::Stopped,
                forward: None,
                port: None,
            },
            ReadEvent::Failed => ReadStep { state: ReaderState::Stopped, forward: None, port: None },
        },
    }
}

/// The shared options after a line was handled: an announced port is
/// recorded, everything else is left alone.
pub open spec fn cell_after_line(cell: CellView, port: Option<u16>) -> CellView {
    match port {
        Some(p) => after_update_port(cell, p),
        None => cell,
    }
}

/// Records the port that a line announced in the shared options. A cell
/// that refuses the update is reported; the reader goes on either way.
pub fn record_announcement(cell: &mut ConfigCell, port: Option<u16>) -> (refused: Option<
    LockError,
>)
    ensures
        final(cell)@ == cell_after_line(old(cell)@, port),
        refused == if port is Some && old(cell)@.poisoned {
            Some(LockError::PortUpdate)
        } else {
            None
        },
{
    match port {
        Some(port) => match ViteProxyOptions::update_port(cell, port) {
            Ok(()) => None,
            Err(e) => Some(e),
        },
        None => None,
    }
}

/// Once a line that announces a port was handled, every read of a sound
/// cell returns that port, and its other fields as they were.
pub proof fn lemma_announced_port_is_read(cell: CellView, port: u16)
    requires
        !cell.poisoned,
    ensures
        visible(cell_after_line(cell, Some(port))).port == Some(port),
        visible(cell_after_line(cell, Some(port))).working_directory == visible(
            cell,
        ).working_directory,
        visible(cell_after_line(cell, Some(port))).log_level == visible(cell).log_level,
        visible(cell_after_line(cell, None)) == visible(cell),
{
}

/// No transition leaves `Stopped`: whatever is read afterwards, the reader
/// stays stopped, forwards nothing and records no port.
pub proof fn lemma_stopped_is_terminal(event: ReadEvent)
    ensures
        state_after_read(ReaderState::Stopped, event) == ReaderState::Stopped,
        forwarded_after_read(ReaderState::Stopped, event) is None,
        port_after_read(ReaderState::Stopped, event) is None,
{
}

/// The reader stops exactly at the end of the stream and at a failed read;
/// every line that is read is forwarded.
pub proof fn lemma_reading_stops_only_at_end(event: ReadEvent)
    ensures
        state_after_read(ReaderState::Reading, event) == ReaderState::Stopped <==> !(event is Line),
        forwarded_after_read(ReaderState::Reading, event) is Some <==> event is Line,
{
}

/// The lines that the relay is handed for the lines that were read, in
/// order.
pub open spec fn forwarded_lines(lines: Seq<Seq<char>>) -> Seq<Seq<char>> {
    lines.map_values(|line: Seq<char>| without_line_ending(line))
}

/// For lines read one after the other, the relay is handed as many, in the
/// same order, each the line it came from up to its ending: none is
/// dropped, repeated or merged.
pub proof fn lemma_lines_forwarded_in_order(lines: Seq<Seq<char>>)
    ensures
        forwarded_lines(lines).len() == lines.len(),
        forall|i: int|
            0 <= i < lines.len() ==> #[trigger] forwarded_lines(lines)[i] == without_line_ending(
                lines[i],
            ) && forwarded_lines(lines)[i] == lines[i].take(forwarded_lines(lines)[i].len() as int),
{
    assert forall|i: int| 0 <= i < lines.len() implies #[trigger] forwarded_lines(lines)[i]
        == without_line_ending(lines[i]) && forwarded_lines(lines)[i] == lines[i].take(
        forwarded_lines(lines)[i].len() as int,
    ) by {
        lemma_forwarded_verbatim(lines[i]);
    }
}

/// A line of the backend's output on its way to the log sink.
#[derive(Debug)]
pub struct LogRecord {
    /// The severity it is published at.
    pub level: Level,
    /// The line.
    pub line: String,
}

/// What the relay publishes for a line it took from the channel.
pub open spec fn relayed(log_level: Option<Level>, line: Seq<char>) -> Option<(Level, Seq<char>)> {
    match log_level {
        Some(level) => Some((level, line)),
        None => None,
    }
}

/// What the contracts say of an optional log record.
pub open spec fn record_view(record: Option<LogRecord>) -> Option<(Level, Seq<char>)> {
    match record {
        Some(r) => Some((r.level, r.line@)),
        None => None,
    }
}

/// The relay's decision for one line: it is published unchanged at the
/// configured severity, or dropped when the relay is turned off.
pub fn relay_line(log_level: Option<Level>, line: String) -> (record: Option<LogRecord>)
    ensures
        record_view(record) == relayed(log_level, line@),
{
    match log_level {
        Some(level) => Some(LogRecord { level, line }),
        None => None,
    }
}

/// The address `http://localhost:<port>` yields that port, for every port.
pub proof fn lemma_port_of_localhost_url(port: u16)
    ensures
        port_of_url("http://localhost:"@ + decimal(port as nat)) == Some(port),
{
    reveal_strlit("http://localhost:");
    let head = "http://localhost:"@;
    let digits = decimal(port as nat);
    crate::text::lemma_decimal_round_trip(port as nat);
    assert(head.len() == 17);
    assert(head.last() == ':');
    assert forall|j: int| 0 <= j < digits.len() implies #[trigger] digits[j] != ':' by {
        assert(crate::text::is_digit(digits[j]));
    }
    crate::text::lemma_after_last_of_joined(head, digits, ':');
}

/// A line that announces the backend's address and in which the pattern
/// captured `http://localhost:<port>` sets exactly that port.
pub proof fn lemma_announcement_sets_port(text: Seq<char>, port: u16)
    requires
        is_announcement(text),
    ensures
        announced_port(text, Some("http://localhost:"@ + decimal(port as nat))) == Some(port),
{
    lemma_port_of_localhost_url(port);
}

/// A line that lacks the marker word or the address announces nothing,
/// whatever the pattern captured.
pub proof fn lemma_other_lines_set_nothing(text: Seq<char>, capture: Option<Seq<char>>)
    requires
        !is_announcement(text),
    ensures
        announced_port(text, capture) is None,
{
}

} // verus!
