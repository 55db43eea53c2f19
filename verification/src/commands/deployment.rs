//! The deployment supervisor: at most one run at a time, every line the child
//! prints classified, and exactly one terminal event per run.

use crate::clock;
use crate::json;
use crate::json::JsonModel;
use crate::resolve;
use crate::resolve::Probe;
use crate::text;
use vstd::prelude::*;

verus! {

/// The token that introduces a run's outputs on a line of the child's output.
pub const OUTPUTS_MARKER: &'static str = "__OUTPUTS__";

pub const STATUS_DEPLOYING: &'static str = "deploying";

pub const STATUS_SUCCESS: &'static str = "success";

pub const STATUS_FAILED: &'static str = "failed";

pub const LEVEL_INFO: &'static str = "info";

pub const LEVEL_ERROR: &'static str = "error";

pub const EVENT_STARTED: &'static str = "deployment-started";

pub const EVENT_LOG: &'static str = "deployment-log";

pub const EVENT_COMPLETED: &'static str = "deployment-completed";

pub const EVENT_FAILED: &'static str = "deployment-failed";

pub const MSG_ALREADY_RUNNING: &'static str = "이미 배포가 진행 중입니다";

pub const MSG_BINARY_MISSING: &'static str = "Go 바이너리를 찾을 수 없습니다: ";

pub const MSG_STARTING: &'static str = "배포를 시작합니다...";

pub const MSG_IN_BACKGROUND: &'static str = "배포가 백그라운드에서 실행 중입니다";

pub const MSG_COMPLETED: &'static str = "배포가 성공적으로 완료되었습니다";

pub const MSG_EXIT_CODE: &'static str = "배포 실패: 종료 코드 ";

pub const MSG_WAIT_FAILED: &'static str = "배포 프로세스 오류: ";

pub const MSG_SPAWN_FAILED: &'static str = "배포 명령 실행 실패: ";

/// One line of the deployment log, as the user interface shows it.
#[derive(Debug, Clone, PartialEq)]
pub struct DeploymentLog {
    pub timestamp: String,
    pub level: String,
    pub message: String,
    pub data: Option<serde_json::Value>,
}

/// The mathematical content of a [`DeploymentLog`].
pub struct LogModel {
    pub timestamp: Seq<char>,
    pub level: Seq<char>,
    pub message: Seq<char>,
    pub data: Option<JsonModel>,
}

/// What an optional JSON value holds.
pub open spec fn json_option_model(value: Option<serde_json::Value>) -> Option<JsonModel> {
    match value {
        Some(v) => Some(json::json_model(v)),
        None => None,
    }
}

impl View for DeploymentLog {
    type V = LogModel;

    open spec fn view(&self) -> LogModel {
        LogModel {
            timestamp: self.timestamp@,
            level: self.level@,
            message: self.message@,
            data: json_option_model(self.data),
        }
    }
}

/// The state of a deployment as reported to the user interface.
#[derive(Debug, Clone, PartialEq)]
pub struct DeploymentStatus {
    pub status: String,
    pub message: Option<String>,
    pub outputs: Option<serde_json::Value>,
}

/// The mathematical content of a [`DeploymentStatus`].
pub struct StatusModel {
    pub status: Seq<char>,
    pub message: Option<Seq<char>>,
    pub outputs: Option<JsonModel>,
}

impl View for DeploymentStatus {
    type V = StatusModel;

    open spec fn view(&self) -> StatusModel {
        StatusModel {
            status: self.status@,
            message: text::optional_text(self.message),
            outputs: json_option_model(self.outputs),
        }
    }
}

/// What the supervisor tells the event sink.
#[derive(Debug, Clone, PartialEq)]
pub enum DeploymentEvent {
    Started(DeploymentStatus),
    Log(DeploymentLog),
    Completed(DeploymentStatus),
    Failed(DeploymentStatus),
}

/// The mathematical content of a [`DeploymentEvent`].
pub enum EventModel {
    Started(StatusModel),
    Log(LogModel),
    Completed(StatusModel),
    Failed(StatusModel),
}

impl View for DeploymentEvent {
    type V = EventModel;

    open spec fn view(&self) -> EventModel {
        match self {
            DeploymentEvent::Started(s) => EventModel::Started(s@),
            DeploymentEvent::Log(l) => EventModel::Log(l@),
            DeploymentEvent::Completed(s) => EventModel::Completed(s@),
            DeploymentEvent::Failed(s) => EventModel::Failed(s@),
        }
    }
}

/// The events of a sink, each by its content.
pub open spec fn events(sink: Seq<DeploymentEvent>) -> Seq<EventModel> {
    sink.map_values(|e: DeploymentEvent| e@)
}

/// The name under which the event sink receives an event.
pub open spec fn event_name(event: EventModel) -> Seq<char> {
    match event {
        EventModel::Started(_) => EVENT_STARTED@,
        EventModel::Log(_) => EVENT_LOG@,
        EventModel::Completed(_) => EVENT_COMPLETED@,
        EventModel::Failed(_) => EVENT_FAILED@,
    }
}

impl DeploymentEvent {
    /// The name under which the event sink receives this event.
    pub fn name(&self) -> (r: &'static str)
        ensures
            r@ == event_name(self@),
    {
        match self {
            DeploymentEvent::Started(_) => EVENT_STARTED,
            DeploymentEvent::Log(_) => EVENT_LOG,
            DeploymentEvent::Completed(_) => EVENT_COMPLETED,
            DeploymentEvent::Failed(_) => EVENT_FAILED,
        }
    }
}

pub const FIELD_TYPE: &'static str = "type";

pub const FIELD_TIMESTAMP: &'static str = "timestamp";

pub const FIELD_MESSAGE: &'static str = "message";

pub const FIELD_DATA: &'static str = "data";

/// The auxiliary data of a structured record: the member `data`, unless it is
/// absent or null.
pub open spec fn data_of(doc: JsonModel) -> Option<JsonModel> {
    match json::member_of(doc, FIELD_DATA@) {
        Some(d) => if d is Null {
            None
        } else {
            Some(d)
        },
        None => None,
    }
}

/// The log record that a JSON document stands for: an object whose members
/// `type`, `timestamp` and `message` are strings. `type` becomes the level.
pub open spec fn record_of_doc(doc: JsonModel) -> Option<LogModel> {
    match (
        json::text_member(doc, FIELD_TYPE@),
        json::text_member(doc, FIELD_TIMESTAMP@),
        json::text_member(doc, FIELD_MESSAGE@),
    ) {
        (Some(level), Some(timestamp), Some(message)) => Some(
            LogModel { timestamp, level, message, data: data_of(doc) },
        ),
        _ => None,
    }
}

/// The log record that a line stands for, if the line is a JSON document of
/// that shape.
pub open spec fn record_of(line: Seq<char>) -> Option<LogModel> {
    match json::json_parse(line) {
        Some(doc) => record_of_doc(doc),
        None => None,
    }
}

/// The content of an optional log line.
pub open spec fn log_option_view(log: Option<DeploymentLog>) -> Option<LogModel> {
    match log {
        Some(l) => Some(l@),
        None => None,
    }
}

/// Reads a line as a structured log record.
pub fn parse_ndjson_log(line: &str) -> (r: Option<DeploymentLog>)
    ensures
        log_option_view(r) == record_of(line@),
{
    let doc = match json::parse(line) {
        Ok(doc) => doc,
        Err(_) => {
            return None;
        },
    };
    let level = match json::member_text(&doc, FIELD_TYPE) {
        Some(level) => level,
        None => {
            return None;
        },
    };
    let timestamp = match json::member_text(&doc, FIELD_TIMESTAMP) {
        Some(timestamp) => timestamp,
        None => {
            return None;
        },
    };
    let message = match json::member_text(&doc, FIELD_MESSAGE) {
        Some(message) => message,
        None => {
            return None;
        },
    };
    let data = match json::member(&doc, FIELD_DATA) {
        Some(d) => if json::is_null(d) {
            None
        } else {
            Some(d.clone())
        },
        None => None,
    };
    Some(DeploymentLog { timestamp, level, message, data })
}

/// What a line of the child's standard output is.
#[derive(Debug, Clone, PartialEq)]
pub enum LineClass {
    /// The line carries the marker. The payload is the JSON value that follows
    /// the marker, or nothing where that text is not JSON.
    Outputs(Option<serde_json::Value>),
    /// The line is a structured log record.
    Record(DeploymentLog),
    /// The line is plain text.
    Plain,
}

/// The mathematical content of a [`LineClass`].
pub enum LineClassModel {
    Outputs(Option<JsonModel>),
    Record(LogModel),
    Plain,
}

impl View for LineClass {
    type V = LineClassModel;

    open spec fn view(&self) -> LineClassModel {
        match self {
            LineClass::Outputs(v) => LineClassModel::Outputs(json_option_model(*v)),
            LineClass::Record(l) => LineClassModel::Record(l@),
            LineClass::Plain => LineClassModel::Plain,
        }
    }
}

/// The text that follows a marker standing at index `at` of a line.
pub open spec fn payload_text(line: Seq<char>, at: int) -> Seq<char> {
    line.subrange(at + OUTPUTS_MARKER@.len(), line.len() as int)
}

/// The class of a line. A line that holds the marker is a payload line,
/// whatever else it holds; the payload starts right behind the leftmost
/// marker. Any other line is a record if it parses as one, and plain text
/// otherwise.
pub open spec fn classify(line: Seq<char>) -> LineClassModel {
    match text::first_occurrence(line, OUTPUTS_MARKER@) {
        Some(at) => LineClassModel::Outputs(json::json_parse(payload_text(line, at))),
        None => match record_of(line) {
            Some(log) => LineClassModel::Record(log),
            None => LineClassModel::Plain,
        },
    }
}

/// Classifies one line of the child's standard output.
pub fn classify_line(line: &str) -> (r: LineClass)
    ensures
        r@ == classify(line@),
{
    match text::find(line, OUTPUTS_MARKER) {
        Some(at) => {
            let len = line.unicode_len();
            let marker_len = OUTPUTS_MARKER.unicode_len();
            let payload = line.substring_char(at + marker_len, len);
            match json::parse(payload) {
                Ok(v) => LineClass::Outputs(Some(v)),
                Err(_) => LineClass::Outputs(None),
            }
        },
        None => match parse_ndjson_log(line) {
            Some(log) => LineClass::Record(log),
            None => LineClass::Plain,
        },
    }
}

/// A line made of the marker and a text behind it is a payload line, and its
/// payload is what that text parses to: the parsed value for valid JSON,
/// nothing for malformed JSON.
pub proof fn lemma_marker_line(payload: Seq<char>)
    ensures
        classify(OUTPUTS_MARKER@ + payload) == LineClassModel::Outputs(json::json_parse(payload)),
{
    let line = OUTPUTS_MARKER@ + payload;
    assert(line.subrange(0, OUTPUTS_MARKER@.len() as int) =~= OUTPUTS_MARKER@);
    text::lemma_first_occurrence_unique(line, OUTPUTS_MARKER@, 0);
    assert(payload_text(line, 0) =~= payload);
}

pub const ARG_RUN: &'static str = "run";

pub const ARG_FILE: &'static str = "-f";

pub const ARG_PROJECT_DIR: &'static str = "-project-dir";

/// One run of the deployment executable, from the accepted start request to
/// its terminal event. It holds how to launch the child and the outputs that
/// the child has reported so far.
#[derive(Debug)]
pub struct DeploymentRun {
    program: String,
    args: Vec<String>,
    working_dir: String,
    outputs: Option<serde_json::Value>,
}

/// The mathematical content of a [`DeploymentRun`].
pub struct RunModel {
    pub program: Seq<char>,
    pub args: Seq<Seq<char>>,
    pub working_dir: Seq<char>,
    pub outputs: Option<JsonModel>,
}

impl View for DeploymentRun {
    type V = RunModel;

    closed spec fn view(&self) -> RunModel {
        RunModel {
            program: self.program@,
            args: text::texts(self.args@),
            working_dir: self.working_dir@,
            outputs: json_option_model(self.outputs),
        }
    }
}

/// The arguments with which the deployment executable is invoked.
pub open spec fn launch_args(project_path: Seq<char>, stack_yaml_path: Seq<char>) -> Seq<
    Seq<char>,
> {
    seq![ARG_RUN@, ARG_FILE@, stack_yaml_path, ARG_PROJECT_DIR@, project_path]
}

/// The run that an accepted start request creates.
pub open spec fn new_run(
    program: Seq<char>,
    project_path: Seq<char>,
    stack_yaml_path: Seq<char>,
) -> RunModel {
    RunModel {
        program,
        args: launch_args(project_path, stack_yaml_path),
        working_dir: project_path,
        outputs: None,
    }
}

/// A status without outputs.
pub open spec fn plain_status(status: Seq<char>, message: Seq<char>) -> StatusModel {
    StatusModel { status, message: Some(message), outputs: None }
}

/// A log line without auxiliary data.
pub open spec fn plain_log(timestamp: Seq<char>, level: Seq<char>, message: Seq<char>) -> LogModel {
    LogModel { timestamp, level, message, data: None }
}

fn make_status(status: &str, message: String, outputs: Option<serde_json::Value>) -> (r:
    DeploymentStatus)
    ensures
        r@ == (StatusModel {
            status: status@,
            message: Some(message@),
            outputs: json_option_model(outputs),
        }),
{
    DeploymentStatus { status: text::owned(status), message: Some(message), outputs }
}

fn make_log(timestamp: String, level: &str, message: String) -> (r: DeploymentLog)
    ensures
        r@ == plain_log(timestamp@, level@, message@),
{
    DeploymentLog { timestamp, level: text::owned(level), message, data: None }
}

fn emit(sink: &mut Vec<DeploymentEvent>, event: DeploymentEvent)
    ensures
        final(sink)@ == old(sink)@.push(event),
        events(final(sink)@) == events(old(sink)@).push(event@),
{
    sink.push(event);
}

/// What a line of standard output does to the outputs captured so far: a
/// payload line with valid JSON replaces them, every other line leaves them.
pub open spec fn outputs_after_line(outputs: Option<JsonModel>, line: Seq<char>) -> Option<
    JsonModel,
> {
    match classify(line) {
        LineClassModel::Outputs(Some(v)) => Some(v),
        _ => outputs,
    }
}

/// The log events that a line of standard output arriving at `now` causes:
/// none for a payload line, the record for a structured line, and an `info`
/// line stamped with the arrival time for plain text.
pub open spec fn stdout_line_events(line: Seq<char>, now: Seq<char>) -> Seq<EventModel> {
    match classify(line) {
        LineClassModel::Outputs(_) => seq![],
        LineClassModel::Record(log) => seq![EventModel::Log(log)],
        LineClassModel::Plain => seq![EventModel::Log(plain_log(now, LEVEL_INFO@, line))],
    }
}

/// The log event that a line of standard error arriving at `now` causes.
pub open spec fn stderr_line_event(line: Seq<char>, now: Seq<char>) -> EventModel {
    EventModel::Log(plain_log(now, LEVEL_ERROR@, line))
}

impl DeploymentRun {
    /// The executable to launch.
    pub fn program(&self) -> (r: &String)
        ensures
            r@ == self@.program,
    {
        &self.program
    }

    /// The arguments to launch it with.
    pub fn args(&self) -> (r: &Vec<String>)
        ensures
            text::texts(r@) == self@.args,
    {
        &self.args
    }

    /// The directory to launch it in.
    pub fn working_dir(&self) -> (r: &String)
        ensures
            r@ == self@.working_dir,
    {
        &self.working_dir
    }

    /// Whether the child has reported outputs so far.
    pub fn has_outputs(&self) -> (r: bool)
        ensures
            r == self@.outputs.is_some(),
    {
        self.outputs.is_some()
    }

    /// Takes in one line of the child's standard output that arrived at `now`.
    pub fn on_stdout_line_at(
        &mut self,
        sink: &mut Vec<DeploymentEvent>,
        line: String,
        now: String,
    )
        ensures
            final(self)@ == (RunModel {
                outputs: outputs_after_line(old(self)@.outputs, line@),
                ..old(self)@
            }),
            events(final(sink)@) == events(old(sink)@) + stdout_line_events(line@, now@),
    {
        match classify_line(line.as_str()) {
            LineClass::Outputs(Some(v)) => {
                self.outputs = Some(v);
            },
            LineClass::Outputs(None) => {},
            LineClass::Record(log) => {
                emit(sink, DeploymentEvent::Log(log));
            },
            LineClass::Plain => {
                emit(sink, DeploymentEvent::Log(make_log(now, LEVEL_INFO, line)));
            },
        }
    }

    /// Takes in one line of the child's standard output, stamping plain text
    /// with the time of the call.
    pub fn on_stdout_line(&mut self, sink: &mut Vec<DeploymentEvent>, line: String)
        ensures
            final(self)@ == (RunModel {
                outputs: outputs_after_line(old(self)@.outputs, line@),
                ..old(self)@
            }),
            exists|now: Seq<char>|
                events(final(sink)@) == events(old(sink)@) + #[trigger] stdout_line_events(
                    line@,
                    now,
                ),
    {
        let now = clock::now_rfc3339();
        self.on_stdout_line_at(sink, line, now);
    }
}

/// A line of a stream together with the time at which it arrived.
#[derive(Debug, Clone, PartialEq, Eq)]
pub struct StampedLine {
    pub line: String,
    pub arrival: String,
}

/// The mathematical content of a [`StampedLine`].
pub struct StampedModel {
    pub line: Seq<char>,
    pub arrival: Seq<char>,
}

impl View for StampedLine {
    type V = StampedModel;

    open spec fn view(&self) -> StampedModel {
        StampedModel { line: self.line@, arrival: self.arrival@ }
    }
}

/// The lines of a stream, each by its content.
pub open spec fn stamped(lines: Seq<StampedLine>) -> Seq<StampedModel> {
    lines.map_values(|l: StampedLine| l@)
}

/// The line holds the marker somewhere.
pub open spec fn holds_marker(line: StampedModel) -> bool {
    text::contains(line.line, OUTPUTS_MARKER@)
}

/// The log event of a line without the marker: the record that the line
/// stands for, or an `info` line stamped with the arrival time.
pub open spec fn log_event(line: StampedModel) -> EventModel {
    match record_of(line.line) {
        Some(log) => EventModel::Log(log),
        None => EventModel::Log(plain_log(line.arrival, LEVEL_INFO@, line.line)),
    }
}

/// The log events that a stream of standard output causes: one for each line
/// without the marker, in the order of the lines, and none for the others.
pub open spec fn stream_events(lines: Seq<StampedModel>) -> Seq<EventModel> {
    lines.filter(|l: StampedModel| !holds_marker(l)).map_values(|l: StampedModel| log_event(l))
}

/// The outputs captured once a stream of standard output was taken in: those
/// of the last line that carries a valid payload, or the outputs captured
/// before where no line does.
pub open spec fn outputs_after_stream(
    outputs: Option<JsonModel>,
    lines: Seq<StampedModel>,
) -> Option<JsonModel>
    decreases lines.len(),
{
    if lines.len() == 0 {
        outputs
    } else {
        outputs_after_line(outputs_after_stream(outputs, lines.drop_last()), lines.last().line)
    }
}

/// What one line adds to the events of a stream.
proof fn lemma_stream_events_push(lines: Seq<StampedModel>, line: StampedModel)
    ensures
        stream_events(lines.push(line)) == stream_events(lines) + stdout_line_events(
            line.line,
            line.arrival,
        ),
{
    let pred = |l: StampedModel| !holds_marker(l);
    let conv = |l: StampedModel| log_event(l);
    lines.lemma_filter_push(line, pred);
    if !holds_marker(line) {
        assert(lines.filter(pred).push(line).map_values(conv) =~= lines.filter(pred).map_values(
            conv,
        ).push(log_event(line)));
        assert(stdout_line_events(line.line, line.arrival) =~= seq![log_event(line)]);
    }
    assert(stream_events(lines.push(line)) =~= stream_events(lines) + stdout_line_events(
        line.line,
        line.arrival,
    ));
}

impl DeploymentRun {
    /// Takes in the lines of the child's standard output, in the order in
    /// which they arrived.
    pub fn on_stdout_lines_at(&mut self, sink: &mut Vec<DeploymentEvent>, lines: Vec<StampedLine>)
        ensures
            final(self)@ == (RunModel {
                outputs: outputs_after_stream(old(self)@.outputs, stamped(lines@)),
                ..old(self)@
            }),
            events(final(sink)@) == events(old(sink)@) + stream_events(stamped(lines@)),
    {
        let ghost all = stamped(lines@);
        let mut lines = lines;
        let mut seen: Ghost<int> = Ghost(0);
        proof {
            assert(stamped(lines@) =~= all.skip(0));
            assert(all.take(0) =~= Seq::<StampedModel>::empty());
            reveal(Seq::filter);
            assert(events(sink@) =~= events(old(sink)@) + stream_events(all.take(0)));
        }
        while lines.len() > 0
            invariant
                0 <= seen@ <= all.len(),
                lines@.len() == all.len() - seen@,
                stamped(lines@) == all.skip(seen@),
                self@ == (RunModel {
                    outputs: outputs_after_stream(old(self)@.outputs, all.take(seen@)),
                    ..old(self)@
                }),
                events(sink@) == events(old(sink)@) + stream_events(all.take(seen@)),
            decreases lines.len(),
        {
            proof {
                assert(stamped(lines@)[0] == lines@[0]@);
                assert(all.skip(seen@)[0] == all[seen@]);
            }
            let next = lines.remove(0);
            proof {
                assert(stamped(lines@) =~= all.skip(seen@).drop_first());
                assert(all.skip(seen@).drop_first() =~= all.skip(seen@ + 1));
                assert(all.take(seen@ + 1) =~= all.take(seen@).push(next@));
                assert(all.take(seen@ + 1).drop_last() =~= all.take(seen@));
                lemma_stream_events_push(all.take(seen@), next@);
            }
            self.on_stdout_line_at(sink, next.line, next.arrival);
            proof {
                assert(events(sink@) =~= events(old(sink)@) + stream_events(all.take(seen@ + 1)));
                seen@ = seen@ + 1;
            }
        }
        proof {
            assert(all.take(seen@) =~= all);
        }
    }
}

/// A stream without a marker line leaves the outputs as they were.
pub proof fn lemma_unmarked_stream_keeps_outputs(
    outputs: Option<JsonModel>,
    lines: Seq<StampedModel>,
)
    requires
        forall|j: int| 0 <= j < lines.len() ==> !holds_marker(#[trigger] lines[j]),
    ensures
        outputs_after_stream(outputs, lines) == outputs,
    decreases lines.len(),
{
    if lines.len() > 0 {
        let front = lines.drop_last();
        assert forall|j: int| 0 <= j < front.len() implies !holds_marker(#[trigger] front[j]) by {
            assert(front[j] == lines[j]);
        }
        lemma_unmarked_stream_keeps_outputs(outputs, front);
        assert(!holds_marker(lines[lines.len() - 1]));
    }
}

/// A stream of which exactly one line holds the marker, that line being the
/// marker with a text right behind it, captures what that text parses to:
/// the parsed value for valid JSON, nothing for malformed JSON.
pub proof fn lemma_single_payload_captured(lines: Seq<StampedModel>, at: int, payload: Seq<char>)
    requires
        0 <= at < lines.len(),
        lines[at].line == OUTPUTS_MARKER@ + payload,
        forall|j: int| 0 <= j < lines.len() && j != at ==> !holds_marker(#[trigger] lines[j]),
    ensures
        outputs_after_stream(None, lines) == json::json_parse(payload),
    decreases lines.len(),
{
    let front = lines.drop_last();
    if at == lines.len() - 1 {
        assert forall|j: int| 0 <= j < front.len() implies !holds_marker(#[trigger] front[j]) by {
            assert(front[j] == lines[j]);
        }
        lemma_unmarked_stream_keeps_outputs(None, front);
        lemma_marker_line(payload);
    } else {
        assert(front[at] == lines[at]);
        assert forall|j: int| 0 <= j < front.len() && j != at implies !holds_marker(
            #[trigger] front[j],
        ) by {
            assert(front[j] == lines[j]);
        }
        lemma_single_payload_captured(front, at, payload);
        assert(!holds_marker(lines[lines.len() - 1]));
    }
}

/// The events of a whole run that was started, wrote `lines` to its standard
/// output and ended with `outcome`: the log events of the stream, then the
/// one terminal event.
pub open spec fn run_events(lines: Seq<StampedModel>, outcome: OutcomeModel) -> Seq<EventModel> {
    stream_events(lines).push(terminal_event(outputs_after_stream(None, lines), outcome))
}

/// A run that exits with code 0 and of whose lines exactly one holds the
/// marker, that line being the marker with a text right behind it, ends with
/// one completion that carries what the text parses to: the parsed value for
/// valid JSON, no outputs for malformed JSON. Every line without the marker
/// has its log event, in the order of the lines; no other event is terminal.
pub proof fn lemma_run_with_one_payload(lines: Seq<StampedModel>, at: int, payload: Seq<char>)
    requires
        0 <= at < lines.len(),
        lines[at].line == OUTPUTS_MARKER@ + payload,
        forall|j: int| 0 <= j < lines.len() && j != at ==> !holds_marker(#[trigger] lines[j]),
    ensures
        ({
            let all = run_events(lines, OutcomeModel::Exited(Some(0i32)));
            let logged = lines.remove(at);
            &&& all.len() == lines.len()
            &&& all.last() == EventModel::Completed(
                StatusModel {
                    status: STATUS_SUCCESS@,
                    message: Some(MSG_COMPLETED@),
                    outputs: json::json_parse(payload),
                },
            )
            &&& forall|i: int| 0 <= i < logged.len() ==> #[trigger] all[i] == log_event(logged[i])
        }),
{
    let line = OUTPUTS_MARKER@ + payload;
    assert(line.subrange(0, OUTPUTS_MARKER@.len() as int) =~= OUTPUTS_MARKER@);
    assert(text::occurs_at(line, OUTPUTS_MARKER@, 0));
    lemma_single_payload_captured(lines, at, payload);
    lemma_stream_skips_marked(lines, at);
}

/// The events of a stream of which exactly the line at `at` holds the marker
/// are the log events of all other lines, in order.
pub proof fn lemma_stream_skips_marked(lines: Seq<StampedModel>, at: int)
    requires
        0 <= at < lines.len(),
        holds_marker(lines[at]),
        forall|j: int| 0 <= j < lines.len() && j != at ==> !holds_marker(#[trigger] lines[j]),
    ensures
        stream_events(lines) == lines.remove(at).map_values(|l: StampedModel| log_event(l)),
{
    let pred = |l: StampedModel| !holds_marker(l);
    let front = lines.subrange(0, at);
    let back = lines.subrange(at + 1, lines.len() as int);
    assert(lines =~= front.push(lines[at]) + back);
    assert(lines.remove(at) =~= front + back);
    Seq::filter_distributes_over_add(front.push(lines[at]), back, pred);
    front.lemma_filter_push(lines[at], pred);
    lemma_all_unmarked(front);
    lemma_all_unmarked(back);
    Seq::filter_distributes_over_add(front, back, pred);
}

/// A stream without a marker line has a log event for every line, in order.
pub proof fn lemma_all_unmarked(lines: Seq<StampedModel>)
    requires
        forall|j: int| 0 <= j < lines.len() ==> !holds_marker(#[trigger] lines[j]),
    ensures
        lines.filter(|l: StampedModel| !holds_marker(l)) == lines,
        stream_events(lines) == lines.map_values(|l: StampedModel| log_event(l)),
    decreases lines.len(),
{
    let pred = |l: StampedModel| !holds_marker(l);
    reveal(Seq::filter);
    if lines.len() > 0 {
        let front = lines.drop_last();
        assert forall|j: int| 0 <= j < front.len() implies !holds_marker(#[trigger] front[j]) by {
            assert(front[j] == lines[j]);
        }
        lemma_all_unmarked(front);
        assert(!holds_marker(lines[lines.len() - 1]));
        assert(front.push(lines.last()) =~= lines);
    }
}

/// Reports one line of the child's standard error that arrived at `now`.
pub fn on_stderr_line_at(sink: &mut Vec<DeploymentEvent>, line: String, now: String)
    ensures
        events(final(sink)@) == events(old(sink)@).push(stderr_line_event(line@, now@)),
{
    emit(sink, DeploymentEvent::Log(make_log(now, LEVEL_ERROR, line)));
}

/// Reports one line of the child's standard error, stamped with the time of
/// the call.
pub fn on_stderr_line(sink: &mut Vec<DeploymentEvent>, line: String)
    ensures
        exists|now: Seq<char>|
            events(final(sink)@) == events(old(sink)@).push(
                #[trigger] stderr_line_event(line@, now),
            ),
{
    let now = clock::now_rfc3339();
    on_stderr_line_at(sink, line, now);
}

/// The single-flight guard of deployments together with the operating-system
/// identity of the child that the current run has spawned.
#[derive(Debug)]
pub struct DeploymentSupervisor {
    running: bool,
    child: Option<u32>,
}

/// The mathematical content of a [`DeploymentSupervisor`].
pub struct SupervisorModel {
    pub running: bool,
    pub child: Option<u32>,
}

impl View for DeploymentSupervisor {
    type V = SupervisorModel;

    closed spec fn view(&self) -> SupervisorModel {
        SupervisorModel { running: self.running, child: self.child }
    }
}

/// The supervisor at rest: no run, no child.
pub open spec fn idle() -> SupervisorModel {
    SupervisorModel { running: false, child: None }
}

/// A start request is accepted when no run is active and the executable was
/// found.
pub open spec fn start_accepted(s: SupervisorModel, found: bool) -> bool {
    !s.running && found
}

/// The supervisor after a start request: an accepted request raises the flag
/// for a run that has no child yet, a rejected one changes nothing.
pub open spec fn after_start(s: SupervisorModel, found: bool) -> SupervisorModel {
    if start_accepted(s, found) {
        SupervisorModel { running: true, child: None }
    } else {
        s
    }
}

/// The supervisor after a run has ended, or after a stop request.
pub open spec fn after_stop(s: SupervisorModel) -> SupervisorModel {
    idle()
}

/// The supervisor after its flag was reset.
pub open spec fn after_reset(s: SupervisorModel) -> SupervisorModel {
    SupervisorModel { running: false, child: s.child }
}

/// The events that a start request causes: none while a run is active, a
/// failure where the executable was not found, and the start otherwise.
pub open spec fn start_events(s: SupervisorModel, resolved: Result<Seq<char>, Seq<char>>) -> Seq<
    EventModel,
> {
    if s.running {
        seq![]
    } else {
        match resolved {
            Ok(_) => seq![EventModel::Started(plain_status(STATUS_DEPLOYING@, MSG_STARTING@))],
            Err(reason) => seq![
                EventModel::Failed(plain_status(STATUS_FAILED@, MSG_BINARY_MISSING@ + reason)),
            ],
        }
    }
}

/// An accepted start request: the status handed back to the caller and the
/// run to launch.
#[derive(Debug)]
pub struct Launch {
    pub status: DeploymentStatus,
    pub run: DeploymentRun,
}

/// The mathematical content of a [`Launch`].
pub struct LaunchModel {
    pub status: StatusModel,
    pub run: RunModel,
}

impl View for Launch {
    type V = LaunchModel;

    open spec fn view(&self) -> LaunchModel {
        LaunchModel { status: self.status@, run: self.run@ }
    }
}

/// The answer to a start request, by content.
pub open spec fn launch_result_view(r: Result<Launch, String>) -> Result<LaunchModel, Seq<char>> {
    match r {
        Ok(launch) => Ok(launch@),
        Err(reason) => Err(reason@),
    }
}

/// The answer that a start request is owed.
pub open spec fn start_result(
    s: SupervisorModel,
    resolved: Result<Seq<char>, Seq<char>>,
    project_path: Seq<char>,
    stack_yaml_path: Seq<char>,
) -> Result<LaunchModel, Seq<char>> {
    if s.running {
        Err(MSG_ALREADY_RUNNING@)
    } else {
        match resolved {
            Ok(program) => Ok(
                LaunchModel {
                    status: plain_status(STATUS_DEPLOYING@, MSG_IN_BACKGROUND@),
                    run: new_run(program, project_path, stack_yaml_path),
                },
            ),
            Err(reason) => Err(reason),
        }
    }
}

/// How a run ended.
#[derive(Debug, Clone, PartialEq)]
pub enum RunOutcome {
    /// The child exited. The code is absent where a signal ended the child.
    Exited(Option<i32>),
    /// The child could not be started.
    SpawnFailed(String),
    /// Waiting for the child failed.
    WaitFailed(String),
}

/// The mathematical content of a [`RunOutcome`].
pub enum OutcomeModel {
    Exited(Option<i32>),
    SpawnFailed(Seq<char>),
    WaitFailed(Seq<char>),
}

impl View for RunOutcome {
    type V = OutcomeModel;

    open spec fn view(&self) -> OutcomeModel {
        match self {
            RunOutcome::Exited(code) => OutcomeModel::Exited(*code),
            RunOutcome::SpawnFailed(e) => OutcomeModel::SpawnFailed(e@),
            RunOutcome::WaitFailed(e) => OutcomeModel::WaitFailed(e@),
        }
    }
}

/// The number shown for an exit code: the code itself, or -1 where the child
/// left none.
pub open spec fn shown_code(code: Option<i32>) -> int {
    match code {
        Some(c) => c as int,
        None => -1,
    }
}

/// The one terminal event of a run: completion with the captured outputs for
/// exit code 0, a failure with its reason for every other outcome.
pub open spec fn terminal_event(outputs: Option<JsonModel>, outcome: OutcomeModel) -> EventModel {
    match outcome {
        OutcomeModel::Exited(Some(0)) => EventModel::Completed(
            StatusModel { status: STATUS_SUCCESS@, message: Some(MSG_COMPLETED@), outputs },
        ),
        OutcomeModel::Exited(code) => EventModel::Failed(
            plain_status(STATUS_FAILED@, MSG_EXIT_CODE@ + text::decimal(shown_code(code))),
        ),
        OutcomeModel::SpawnFailed(reason) => EventModel::Failed(
            plain_status(STATUS_FAILED@, MSG_SPAWN_FAILED@ + reason),
        ),
        OutcomeModel::WaitFailed(reason) => EventModel::Failed(
            plain_status(STATUS_FAILED@, MSG_WAIT_FAILED@ + reason),
        ),
    }
}

impl DeploymentSupervisor {
    /// A supervisor at rest.
    pub fn new() -> (r: Self)
        ensures
            r@ == idle(),
    {
        DeploymentSupervisor { running: false, child: None }
    }

    /// Whether a run is active.
    pub fn is_running(&self) -> (r: bool)
        ensures
            r == self@.running,
    {
        self.running
    }

    /// The identity of the child that the current run has spawned.
    pub fn child(&self) -> (r: Option<u32>)
        ensures
            r == self@.child,
    {
        self.child
    }

    /// Records the identity of the child that the current run has spawned.
    pub fn child_spawned(&mut self, pid: u32)
        ensures
            final(self)@ == (SupervisorModel { child: Some(pid), ..old(self)@ }),
    {
        self.child = Some(pid);
    }
}

/// Asks for a deployment. `resolved` is the outcome of looking for the
/// executable. While a run is active the request fails and nothing changes.
/// Where the executable was not found the request fails, one failure event
/// is emitted, and the flag stays down. Otherwise the flag goes up, the start
/// is reported, and the run to launch is handed back.
pub fn deploy_stack(
    supervisor: &mut DeploymentSupervisor,
    sink: &mut Vec<DeploymentEvent>,
    resolved: Result<String, String>,
    project_path: String,
    stack_yaml_path: String,
) -> (r: Result<Launch, String>)
    ensures
        final(supervisor)@ == after_start(old(supervisor)@, resolved is Ok),
        events(final(sink)@) == events(old(sink)@) + start_events(
            old(supervisor)@,
            text::result_text(resolved),
        ),
        old(supervisor)@.running ==> *final(sink) == *old(sink),
        launch_result_view(r) == start_result(
            old(supervisor)@,
            text::result_text(resolved),
            project_path@,
            stack_yaml_path@,
        ),
{
    if supervisor.running {
        return Err(text::owned(MSG_ALREADY_RUNNING));
    }
    let program = match resolved {
        Ok(program) => program,
        Err(reason) => {
            let message = text::join(MSG_BINARY_MISSING, reason.as_str());
            emit(sink, DeploymentEvent::Failed(make_status(STATUS_FAILED, message, None)));
            return Err(reason);
        },
    };
    supervisor.running = true;
    supervisor.child = None;
    emit(
        sink,
        DeploymentEvent::Started(make_status(STATUS_DEPLOYING, text::owned(MSG_STARTING), None)),
    );
    let mut args: Vec<String> = Vec::new();
    args.push(text::owned(ARG_RUN));
    args.push(text::owned(ARG_FILE));
    args.push(stack_yaml_path);
    args.push(text::owned(ARG_PROJECT_DIR));
    args.push(project_path.clone());
    assert(text::texts(args@) =~= launch_args(project_path@, stack_yaml_path@));
    let run = DeploymentRun { program, args, working_dir: project_path, outputs: None };
    let status = make_status(STATUS_DEPLOYING, text::owned(MSG_IN_BACKGROUND), None);
    Ok(Launch { status, run })
}

/// Ends a run: emits its one terminal event and lowers the flag, whatever the
/// outcome.
pub fn finish_deployment(
    supervisor: &mut DeploymentSupervisor,
    sink: &mut Vec<DeploymentEvent>,
    run: DeploymentRun,
    outcome: RunOutcome,
)
    ensures
        final(supervisor)@ == after_stop(old(supervisor)@),
        events(final(sink)@) == events(old(sink)@).push(terminal_event(run@.outputs, outcome@)),
{
    let event = match outcome {
        RunOutcome::Exited(Some(0)) => DeploymentEvent::Completed(
            make_status(STATUS_SUCCESS, text::owned(MSG_COMPLETED), run.outputs),
        ),
        RunOutcome::Exited(code) => {
            let shown: i32 = match code {
                Some(c) => c,
                None => -1,
            };
            let mut message = text::owned(MSG_EXIT_CODE);
            text::push_decimal(&mut message, shown as i64);
            DeploymentEvent::Failed(make_status(STATUS_FAILED, message, None))
        },
        RunOutcome::SpawnFailed(reason) => DeploymentEvent::Failed(
            make_status(STATUS_FAILED, text::join(MSG_SPAWN_FAILED, reason.as_str()), None),
        ),
        RunOutcome::WaitFailed(reason) => DeploymentEvent::Failed(
            make_status(STATUS_FAILED, text::join(MSG_WAIT_FAILED, reason.as_str()), None),
        ),
    };
    emit(sink, event);
    supervisor.running = false;
    supervisor.child = None;
}

/// Stops the deployment: lowers the flag and hands back the identity of the
/// child to terminate, if one is tracked. With no run active this still
/// leaves the flag down.
pub fn stop_deployment(supervisor: &mut DeploymentSupervisor) -> (r: Result<Option<u32>, String>)
    ensures
        final(supervisor)@ == after_stop(old(supervisor)@),
        r == Ok::<Option<u32>, String>(old(supervisor)@.child),
{
    let child = supervisor.child;
    supervisor.running = false;
    supervisor.child = None;
    Ok(child)
}

/// Lowers the flag and says whether it was up.
pub fn reset_deployment_state(supervisor: &mut DeploymentSupervisor) -> (r: Result<bool, String>)
    ensures
        final(supervisor)@ == after_reset(old(supervisor)@),
        r == Ok::<bool, String>(old(supervisor)@.running),
{
    let was_running = supervisor.running;
    supervisor.running = false;
    Ok(was_running)
}

/// While a run is active a second start request fails: the supervisor stays
/// as it was, no event is emitted, and no run is handed back.
pub proof fn lemma_second_start_rejected(
    s: SupervisorModel,
    resolved: Result<Seq<char>, Seq<char>>,
    project_path: Seq<char>,
    stack_yaml_path: Seq<char>,
)
    requires
        s.running,
    ensures
        after_start(s, resolved is Ok) == s,
        after_start(s, resolved is Ok).running,
        start_events(s, resolved) == Seq::<EventModel>::empty(),
        start_result(s, resolved, project_path, stack_yaml_path) == Err::<
            LaunchModel,
            Seq<char>,
        >(MSG_ALREADY_RUNNING@),
{
}

/// Every way in which a run ends leaves the flag down: the end of the child
/// and a forced stop lower it, a failed resolution never raises it. Stopping
/// or resetting again changes nothing and the flag stays down.
pub proof fn lemma_flag_down_after_termination(s: SupervisorModel)
    ensures
        !after_stop(s).running,
        !after_reset(s).running,
        !s.running ==> !after_start(s, false).running,
        after_stop(after_stop(s)) == after_stop(s),
        after_reset(after_reset(s)) == after_reset(s),
        after_reset(after_stop(s)) == after_stop(s),
        after_stop(after_reset(s)) == after_stop(s),
{
}

/// An event that reports the end of a run.
pub open spec fn is_terminal(event: EventModel) -> bool {
    event is Completed || event is Failed
}

/// Only the end of a run reports a terminal state. What the lines of the two
/// streams cause are log lines; what ends a run is terminal, and it is a
/// completion exactly for exit code 0.
pub proof fn lemma_terminal_only_at_the_end(
    outputs: Option<JsonModel>,
    line: Seq<char>,
    now: Seq<char>,
    outcome: OutcomeModel,
)
    ensures
        forall|i: int|
            0 <= i < stdout_line_events(line, now).len() ==> !is_terminal(
                #[trigger] stdout_line_events(line, now)[i],
            ),
        !is_terminal(stderr_line_event(line, now)),
        is_terminal(terminal_event(outputs, outcome)),
        terminal_event(outputs, outcome) is Completed <==> outcome == OutcomeModel::Exited(
            Some(0i32),
        ),
{
}

/// A line of standard output that holds the marker anywhere causes no log
/// event; every other line, the empty one too, causes exactly one.
pub proof fn lemma_one_log_event_per_line(line: Seq<char>, now: Seq<char>)
    ensures
        text::contains(line, OUTPUTS_MARKER@) ==> stdout_line_events(line, now).len() == 0,
        !text::contains(line, OUTPUTS_MARKER@) ==> stdout_line_events(line, now).len() == 1
            && stdout_line_events(line, now)[0] is Log,
{
}

/// A payload line never reaches the log. Valid JSON behind the marker becomes
/// the run's outputs; malformed JSON leaves the outputs as they were.
pub proof fn lemma_marker_line_captured(
    outputs: Option<JsonModel>,
    payload: Seq<char>,
    now: Seq<char>,
)
    ensures
        stdout_line_events(OUTPUTS_MARKER@ + payload, now) == Seq::<EventModel>::empty(),
        json::json_parse(payload) is Some ==> outputs_after_line(
            outputs,
            OUTPUTS_MARKER@ + payload,
        ) == json::json_parse(payload),
        json::json_parse(payload) is None ==> outputs_after_line(
            outputs,
            OUTPUTS_MARKER@ + payload,
        ) == outputs,
{
    lemma_marker_line(payload);
}

pub const KEY_API_VERSION: &'static str = "apiVersion:";

pub const KEY_NAME: &'static str = "name:";

pub const KEY_TARGETS: &'static str = "targets:";

pub const KEY_SERVICES: &'static str = "services:";

pub const MSG_NO_API_VERSION: &'static str = "apiVersion이 없습니다";

pub const MSG_NO_NAME: &'static str = "프로젝트 이름이 없습니다";

pub const MSG_NO_TARGETS: &'static str = "배포 대상(targets)이 없습니다";

pub const MSG_NO_SERVICES: &'static str = "서비스 정의가 없습니다";

/// The first complaint about a stack description, if there is one: each of
/// the four keys must stand somewhere in the text, and the first one that is
/// missing, in the order `apiVersion:`, `name:`, `targets:`, `services:`, is
/// reported.
pub open spec fn stack_yaml_complaint(yaml: Seq<char>) -> Option<Seq<char>> {
    if !text::contains(yaml, KEY_API_VERSION@) {
        Some(MSG_NO_API_VERSION@)
    } else if !text::contains(yaml, KEY_NAME@) {
        Some(MSG_NO_NAME@)
    } else if !text::contains(yaml, KEY_TARGETS@) {
        Some(MSG_NO_TARGETS@)
    } else if !text::contains(yaml, KEY_SERVICES@) {
        Some(MSG_NO_SERVICES@)
    } else {
        None
    }
}

/// Checks that a stack description names its four mandatory keys.
pub fn validate_stack_yaml(yaml_content: String) -> (r: Result<bool, String>)
    ensures
        match r {
            Ok(valid) => valid && stack_yaml_complaint(yaml_content@).is_none(),
            Err(complaint) => stack_yaml_complaint(yaml_content@) == Some(complaint@),
        },
{
    let yaml = yaml_content.as_str();
    if !text::contains_str(yaml, KEY_API_VERSION) {
        return Err(text::owned(MSG_NO_API_VERSION));
    }
    if !text::contains_str(yaml, KEY_NAME) {
        return Err(text::owned(MSG_NO_NAME));
    }
    if !text::contains_str(yaml, KEY_TARGETS) {
        return Err(text::owned(MSG_NO_TARGETS));
    }
    if !text::contains_str(yaml, KEY_SERVICES) {
        return Err(text::owned(MSG_NO_SERVICES));
    }
    Ok(true)
}

pub const BINARY_STEM: &'static str = "arfni-go";

pub const EXE_SUFFIX: &'static str = ".exe";

pub const RESOURCE_NESTED: &'static str = "_up_/_up_/BE/arfni/bin/";

pub const RESOURCE_BIN: &'static str = "BE/arfni/bin/";

pub const MSG_NOT_FOUND_HEAD: &'static str = "Go 바이너리를 찾을 수 없습니다: ";

pub const MSG_NOT_FOUND_TRIED: &'static str = ". 확인한 경로:\n  - ";

/// The file name of the deployment executable on this kind of system.
pub open spec fn binary_name(windows: bool) -> Seq<char> {
    if windows {
        BINARY_STEM@ + EXE_SUFFIX@
    } else {
        BINARY_STEM@
    }
}

/// The file name of the deployment executable on this kind of system.
pub fn go_binary_name(windows: bool) -> (r: String)
    ensures
        r@ == binary_name(windows),
{
    if windows {
        text::join(BINARY_STEM, EXE_SUFFIX)
    } else {
        text::owned(BINARY_STEM)
    }
}

/// The places among the packaged resources at which the executable may lie,
/// in the order in which they are tried.
pub open spec fn resource_candidates(name: Seq<char>) -> Seq<Seq<char>> {
    seq![name, RESOURCE_NESTED@ + name, RESOURCE_BIN@ + name]
}

/// The places among the packaged resources at which the executable may lie,
/// in the order in which they are tried.
pub fn resource_patterns(name: &str) -> (r: Vec<String>)
    ensures
        text::texts(r@) == resource_candidates(name@),
{
    let mut out: Vec<String> = Vec::new();
    out.push(text::owned(name));
    out.push(text::join(RESOURCE_NESTED, name));
    out.push(text::join(RESOURCE_BIN, name));
    out
}

/// What is reported when the executable lies at none of the places tried:
/// the name of the executable and every place tried, in the order in which
/// the places were tried.
pub open spec fn binary_missing(name: Seq<char>, tried: Seq<resolve::ProbeModel>) -> Seq<char> {
    MSG_NOT_FOUND_HEAD@ + name + MSG_NOT_FOUND_TRIED@ + resolve::listed(tried)
}

/// Settles where the deployment executable lies. The probes stand in the
/// order in which the places were tried, a pinned path first where one was
/// given; the first place at which something exists wins. Where nothing
/// exists at any of them, all places tried are reported.
pub fn find_go_binary(name: &str, tried: &Vec<Probe>) -> (r: Result<String, String>)
    ensures
        match r {
            Ok(path) => resolve::first_existing(resolve::probes(tried@)) == Some(path@),
            Err(reason) => resolve::first_existing(resolve::probes(tried@)).is_none() && reason@
                == binary_missing(name@, resolve::probes(tried@)),
        },
{
    match resolve::choose_existing(tried) {
        Some(path) => Ok(path),
        None => {
            let mut reason = text::join(MSG_NOT_FOUND_HEAD, name);
            reason.append(MSG_NOT_FOUND_TRIED);
            resolve::push_listed(&mut reason, tried);
            Err(reason)
        },
    }
}

/// The report of a missing executable names every place that was tried.
pub proof fn lemma_missing_binary_names_each_place(
    name: Seq<char>,
    tried: Seq<resolve::ProbeModel>,
    i: int,
)
    requires
        0 <= i < tried.len(),
    ensures
        text::contains(binary_missing(name, tried), tried[i].path),
{
    resolve::lemma_listed_holds_each_path(tried, i);
    text::lemma_contains_behind(
        MSG_NOT_FOUND_HEAD@ + name + MSG_NOT_FOUND_TRIED@,
        resolve::listed(tried),
        tried[i].path,
    );
}

/// The root of the project around a directory: the nearest of the directory
/// and its ancestors that holds a `.git` entry. The probes stand for the
/// directory and its ancestors, nearest first, each saying whether it holds
/// such an entry.
pub fn find_project_root(ancestors: &Vec<Probe>) -> (r: Option<String>)
    ensures
        match r {
            Some(root) => resolve::first_existing(resolve::probes(ancestors@)) == Some(root@),
            None => resolve::first_existing(resolve::probes(ancestors@)).is_none(),
        },
{
    resolve::choose_existing(ancestors)
}

pub const MSG_DAEMON_DOWN: &'static str = "Docker 데몬이 실행되고 있지 않습니다: ";

pub const MSG_DOCKER_CHECK_FAILED: &'static str = "Docker 실행 상태 확인 실패: ";

pub const MSG_SSH_OK: &'static str = "✓ SSH 연결 성공\n";

pub const MSG_SSH_REFUSED: &'static str = "SSH 연결 실패: ";

pub const MSG_SSH_NOT_RUN: &'static str = "SSH 실행 실패: ";

/// What came of running a command to its end.
#[derive(Debug, Clone, PartialEq, Eq)]
pub enum CommandOutcome {
    /// The command could not be started.
    NotStarted(String),
    /// The command ran. `success` says whether it exited with success.
    Finished { success: bool, stdout: String, stderr: String },
}

/// The mathematical content of a [`CommandOutcome`].
pub enum CommandModel {
    NotStarted(Seq<char>),
    Finished { success: bool, stdout: Seq<char>, stderr: Seq<char> },
}

impl View for CommandOutcome {
    type V = CommandModel;

    open spec fn view(&self) -> CommandModel {
        match self {
            CommandOutcome::NotStarted(reason) => CommandModel::NotStarted(reason@),
            CommandOutcome::Finished { success, stdout, stderr } => CommandModel::Finished {
                success: *success,
                stdout: stdout@,
                stderr: stderr@,
            },
        }
    }
}

/// The verdict on `docker ps`: the daemon runs where the command succeeds.
pub open spec fn docker_verdict(outcome: CommandModel) -> Result<bool, Seq<char>> {
    match outcome {
        CommandModel::NotStarted(reason) => Err(MSG_DOCKER_CHECK_FAILED@ + reason),
        CommandModel::Finished { success, stdout, stderr } => if success {
            Ok(true)
        } else {
            Err(MSG_DAEMON_DOWN@ + text::trimmed(stderr))
        },
    }
}

/// The verdict on whether the Docker daemon runs, from the outcome of
/// `docker ps`.
pub fn check_docker_running(outcome: &CommandOutcome) -> (r: Result<bool, String>)
    ensures
        match r {
            Ok(up) => docker_verdict(outcome@) == Ok::<bool, Seq<char>>(up),
            Err(reason) => docker_verdict(outcome@) == Err::<bool, Seq<char>>(reason@),
        },
{
    match outcome {
        CommandOutcome::NotStarted(reason) => Err(
            text::join(MSG_DOCKER_CHECK_FAILED, reason.as_str()),
        ),
        CommandOutcome::Finished { success, stdout, stderr } => {
            if *success {
                Ok(true)
            } else {
                Err(text::join(MSG_DAEMON_DOWN, text::trim(stderr.as_str())))
            }
        },
    }
}

/// The verdict on a trial connection to a remote host.
pub open spec fn ssh_verdict(outcome: CommandModel) -> Result<Seq<char>, Seq<char>> {
    match outcome {
        CommandModel::NotStarted(reason) => Err(MSG_SSH_NOT_RUN@ + reason),
        CommandModel::Finished { success, stdout, stderr } => if success {
            Ok(MSG_SSH_OK@ + text::trimmed(stdout))
        } else {
            Err(MSG_SSH_REFUSED@ + text::trimmed(stderr))
        },
    }
}

/// The verdict on a trial connection to a remote host, from the outcome of
/// the shell client.
pub fn test_ssh_connection(outcome: &CommandOutcome) -> (r: Result<String, String>)
    ensures
        text::result_text(r) == ssh_verdict(outcome@),
{
    match outcome {
        CommandOutcome::NotStarted(reason) => Err(text::join(MSG_SSH_NOT_RUN, reason.as_str())),
        CommandOutcome::Finished { success, stdout, stderr } => {
            if *success {
                Ok(text::join(MSG_SSH_OK, text::trim(stdout.as_str())))
            } else {
                Err(text::join(MSG_SSH_REFUSED, text::trim(stderr.as_str())))
            }
        },
    }
}

pub const SSH_IDENTITY: &'static str = "-i";

pub const SSH_OPTION: &'static str = "-o";

pub const SSH_NO_HOST_CHECK: &'static str = "StrictHostKeyChecking=no";

pub const SSH_BATCH: &'static str = "BatchMode=yes";

pub const SSH_TIMEOUT: &'static str = "ConnectTimeout=10";

pub const SSH_QUIET: &'static str = "LogLevel=ERROR";

pub const SSH_PROBE: &'static str = "echo 'Connection successful'";

pub const AT: &'static str = "@";

/// The arguments of the shell client for a trial connection.
pub open spec fn ssh_test_arguments(host: Seq<char>, user: Seq<char>, key_path: Seq<char>) -> Seq<
    Seq<char>,
> {
    seq![
        SSH_IDENTITY@,
        key_path,
        SSH_OPTION@,
        SSH_NO_HOST_CHECK@,
        SSH_OPTION@,
        SSH_BATCH@,
        SSH_OPTION@,
        SSH_TIMEOUT@,
        SSH_OPTION@,
        SSH_QUIET@,
        user + AT@ + host,
        SSH_PROBE@,
    ]
}

/// The arguments of the shell client for a trial connection.
pub fn ssh_test_args(host: &str, user: &str, key_path: &str) -> (r: Vec<String>)
    ensures
        text::texts(r@) == ssh_test_arguments(host@, user@, key_path@),
{
    let mut target = text::join(user, AT);
    target.append(host);
    let mut out: Vec<String> = Vec::new();
    out.push(text::owned(SSH_IDENTITY));
    out.push(text::owned(key_path));
    out.push(text::owned(SSH_OPTION));
    out.push(text::owned(SSH_NO_HOST_CHECK));
    out.push(text::owned(SSH_OPTION));
    out.push(text::owned(SSH_BATCH));
    out.push(text::owned(SSH_OPTION));
    out.push(text::owned(SSH_TIMEOUT));
    out.push(text::owned(SSH_OPTION));
    out.push(text::owned(SSH_QUIET));
    out.push(target);
    out.push(text::owned(SSH_PROBE));
    out
}

/// A request to a process to end.
#[derive(Debug, Clone, Copy, PartialEq, Eq)]
pub enum Signal {
    /// A request that the process may handle and clean up after.
    Graceful,
    /// A kill that the process cannot refuse.
    Forced,
}

/// The next step in ending a child. `sent` is the last signal sent so far,
/// `alive` whether the child still runs once the grace period of that signal
/// is over. A child that runs is first asked to end, and killed if it is
/// still running after that; a child that has ended, or was killed, gets no
/// further signal.
pub open spec fn escalation(sent: Option<Signal>, alive: bool) -> Option<Signal> {
    if !alive {
        None
    } else {
        match sent {
            None => Some(Signal::Graceful),
            Some(Signal::Graceful) => Some(Signal::Forced),
            Some(Signal::Forced) => None,
        }
    }
}

/// The next signal to send to a child that is to end.
pub fn next_signal(sent: Option<Signal>, alive: bool) -> (r: Option<Signal>)
    ensures
        r == escalation(sent, alive),
{
    if !alive {
        return None;
    }
    match sent {
        None => Some(Signal::Graceful),
        Some(Signal::Graceful) => Some(Signal::Forced),
        Some(Signal::Forced) => None,
    }
}

} // verus!
