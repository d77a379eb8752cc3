//! The bridge to the worker process: one request line out, response lines in
//! until one of them answers.
//!
//! Nothing here starts a process or touches a stream. `SidecarCall` decides,
//! event by event, what the caller does next; the caller spawns the worker,
//! writes and reads, and reports back what happened.
use serde_json::Value;
use vstd::prelude::*;

use crate::correlator::RequestCorrelator;
use crate::error::{CallError, Fault};
use crate::json;
use crate::json::{
    as_i64, as_text, as_u64, document, json_parsed, json_printed, member, reads_back, Json,
    Members,
};
use crate::text::{blank, chars_of, contains, is_blank, occurs_in};

verus! {

/// A request to the worker.
#[derive(Debug, Clone, PartialEq)]
pub struct SidecarRequest {
    pub id: u64,
    pub method: String,
    pub params: Option<Value>,
}

/// The error that a worker reports in a response.
#[derive(Debug, Clone, PartialEq, Eq)]
pub struct SidecarError {
    pub code: i32,
    pub message: String,
    pub data: Option<String>,
}

/// A response of the worker. A well-formed one has either a result or an
/// error. A result may be any value, `null` too; an `id` or an `error` that
/// is `null` counts as left out.
#[derive(Debug, Clone, PartialEq)]
pub struct SidecarResponse {
    pub id: Option<u64>,
    pub result: Option<Value>,
    pub error: Option<SidecarError>,
}

/// A request as plain values.
pub struct Request {
    pub id: u64,
    pub method: Seq<char>,
    pub params: Option<Json>,
}

/// A reported error as plain values.
pub struct Failure {
    pub code: i32,
    pub message: Seq<char>,
    pub data: Option<Seq<char>>,
}

/// A response as plain values.
pub struct Response {
    pub id: Option<u64>,
    pub result: Option<Json>,
    pub error: Option<Failure>,
}

/// The document of an optional value.
pub open spec fn optional_document(v: Option<Value>) -> Option<Json> {
    match v {
        Some(v) => Some(document(v)),
        None => None,
    }
}

/// The characters of an optional string.
pub open spec fn optional_chars(s: Option<String>) -> Option<Seq<char>> {
    match s {
        Some(s) => Some(s@),
        None => None,
    }
}

impl View for SidecarRequest {
    type V = Request;

    open spec fn view(&self) -> Request {
        Request { id: self.id, method: self.method@, params: optional_document(self.params) }
    }
}

impl View for SidecarError {
    type V = Failure;

    open spec fn view(&self) -> Failure {
        Failure { code: self.code, message: self.message@, data: optional_chars(self.data) }
    }
}

impl View for SidecarResponse {
    type V = Response;

    open spec fn view(&self) -> Response {
        Response {
            id: self.id,
            result: optional_document(self.result),
            error: match self.error {
                Some(e) => Some(e@),
                None => None,
            },
        }
    }
}

/// The document of a request: an object with the members `id`, `method` and
/// `params`, the last `null` where the request has no parameters.
pub open spec fn request_document(r: Request) -> Json {
    Json::Object(
        map![
            "id"@ => Json::Integer(r.id as int),
            "method"@ => Json::Text(r.method),
            "params"@ => match r.params {
                Some(p) => p,
                None => Json::Null,
            },
        ],
    )
}

/// The line that carries a request, without its line break.
pub open spec fn request_line(r: Request) -> Seq<char> {
    json_printed(request_document(r))
}

/// A member that may be left out: `None` where the key is missing or its
/// value is `null`.
pub open spec fn optional(doc: Json, key: Seq<char>) -> Option<Json> {
    match member(doc, key) {
        Some(Json::Null) => None,
        other => other,
    }
}

/// The value of an integer document that fits `i32`.
pub open spec fn as_i32(doc: Json) -> Option<i32> {
    match as_i64(doc) {
        Some(n) => if i32::MIN <= n <= i32::MAX {
            Some(n as i32)
        } else {
            None
        },
        None => None,
    }
}

/// The reported error that a document holds: an object with an integer
/// `code` that fits 32 bits, a string `message`, and a `data` that is left
/// out or a string.
pub open spec fn document_failure(doc: Json) -> Option<Failure> {
    match (member(doc, "code"@), member(doc, "message"@)) {
        (Some(code), Some(message)) => match (as_i32(code), as_text(message)) {
            (Some(code), Some(message)) => match optional(doc, "data"@) {
                None => Some(Failure { code, message, data: None }),
                Some(Json::Text(data)) => Some(Failure { code, message, data: Some(data) }),
                Some(_) => None,
            },
            _ => None,
        },
        _ => None,
    }
}

/// The `id` of a response document: left out, or an integer that fits `u64`.
/// The outer `None` is a document that is no response.
pub open spec fn document_id(doc: Json) -> Option<Option<u64>> {
    match optional(doc, "id"@) {
        None => Some(None),
        Some(id) => match as_u64(id) {
            Some(id) => Some(Some(id)),
            None => None,
        },
    }
}

/// The `error` of a response document: left out, or a reported error. The
/// outer `None` is a document that is no response.
pub open spec fn document_error(doc: Json) -> Option<Option<Failure>> {
    match optional(doc, "error"@) {
        None => Some(None),
        Some(error) => match document_failure(error) {
            Some(f) => Some(Some(f)),
            None => None,
        },
    }
}

/// The response that a document holds: an object whose `id`, `result` and
/// `error` may each be left out; other members are passed over. The result
/// is the member `result` as it stands, so a `null` there is a result.
pub open spec fn document_response(doc: Json) -> Option<Response> {
    if doc is Object {
        match (document_id(doc), document_error(doc)) {
            (Some(id), Some(error)) => Some(
                Response { id, result: member(doc, "result"@), error },
            ),
            _ => None,
        }
    } else {
        None
    }
}

/// What one line of the worker's output means for the call.
#[derive(Debug, Clone, PartialEq)]
pub enum LineVerdict {
    /// Nothing: the call reads on.
    Skip,
    /// The call succeeds with this value.
    Answer(Value),
    /// The call fails.
    Failed(CallError),
}

/// A `LineVerdict` as plain values.
pub enum Verdict {
    Skip,
    Answer(Json),
    Failed(Fault),
}

impl View for LineVerdict {
    type V = Verdict;

    open spec fn view(&self) -> Verdict {
        match self {
            LineVerdict::Skip => Verdict::Skip,
            LineVerdict::Answer(v) => Verdict::Answer(document(*v)),
            LineVerdict::Failed(e) => Verdict::Failed(e@),
        }
    }
}

/// A response that answers the request `id`: one without an identifier, or
/// with that of the request.
pub open spec fn is_matching(r: Response, id: u64) -> bool {
    match r.id {
        Some(other) => other == id,
        None => true,
    }
}

/// What a response means for the call whose request went out as `id`. A
/// response to another request is passed over. Of a matching one, the error
/// fails the call; without an error, the result answers it; with neither,
/// the call reads on.
pub open spec fn response_verdict(r: Response, id: u64) -> Verdict {
    if !is_matching(r, id) {
        Verdict::Skip
    } else {
        match r.error {
            Some(f) => Verdict::Failed(Fault::Sidecar { code: f.code, message: f.message }),
            None => match r.result {
                Some(v) => Verdict::Answer(v),
                None => Verdict::Skip,
            },
        }
    }
}

/// The marker of the worker's start-up line: the word `ready` in double
/// quotes.
pub open spec fn ready_marker() -> Seq<char> {
    seq!['"', 'r', 'e', 'a', 'd', 'y', '"']
}

/// What a line means for the call whose request went out as `id`: a blank
/// line and a line with the ready marker are skipped; a line that is not
/// JSON, or holds no response, is a protocol error; any other line means
/// what its response means.
pub open spec fn line_verdict(line: Seq<char>, id: u64) -> Verdict {
    if is_blank(line) || occurs_in(line, ready_marker()) {
        Verdict::Skip
    } else {
        match json_parsed(line) {
            None => Verdict::Failed(Fault::Protocol),
            Some(doc) => match document_response(doc) {
                None => Verdict::Failed(Fault::Protocol),
                Some(r) => response_verdict(r, id),
            },
        }
    }
}

/// How the call whose request went out as `id` ends after the lines `lines`,
/// should the worker then close its output: with the first verdict that is
/// not a skip, or without a response.
pub open spec fn lines_outcome(lines: Seq<Seq<char>>, id: u64) -> Result<Json, Fault>
    decreases lines.len(),
{
    if lines.len() == 0 {
        Err(Fault::NoResponse)
    } else {
        match line_verdict(lines[0], id) {
            Verdict::Skip => lines_outcome(lines.drop_first(), id),
            Verdict::Answer(v) => Ok(v),
            Verdict::Failed(f) => Err(f),
        }
    }
}

/// The member under `key`, unless it is missing or `null`.
fn optional_member(v: &Value, key: &str) -> (r: Option<Value>)
    ensures
        optional_document(r) == optional(document(*v), key@),
{
    match json::get(v, key) {
        Some(m) => if json::is_null(&m) {
            None
        } else {
            Some(m)
        },
        None => None,
    }
}

impl SidecarRequest {
    /// The line that carries the request, without its line break. It holds
    /// no line feed, and where the parameters are read back from their text
    /// as they were, so is the request.
    pub fn to_line(&self) -> (line: String)
        ensures
            line@ == request_line(self@),
            !line@.contains('\n'),
            reads_back(request_document(self@)) ==> json_parsed(line@) == Some(
                request_document(self@),
            ),
    {
        let params = match &self.params {
            Some(p) => p.clone(),
            None => json::null(),
        };
        proof {
            reveal_strlit("id");
            reveal_strlit("method");
            reveal_strlit("params");
            assert("id"@.len() == 2 && "method"@.len() == 6);
            assert("method"@[0] != "params"@[0]);
        }
        let members = Members::new().with("id", json::integer(self.id));
        let members = members.with("method", json::text(self.method.as_str()));
        let members = members.with("params", params);
        json::print(&members.into_value())
    }
}

impl SidecarError {
    /// Reads a reported error from a value.
    pub fn from_value(v: &Value) -> (r: Option<SidecarError>)
        ensures
            r matches Some(e) ==> document_failure(document(*v)) == Some(e@),
            r is None ==> document_failure(document(*v)) is None,
    {
        let code: i32 = match json::get(v, "code") {
            Some(m) => match json::get_i64(&m) {
                Some(n) => if -0x8000_0000 <= n && n <= 0x7fff_ffff {
                    n as i32
                } else {
                    return None;
                },
                None => {
                    return None;
                },
            },
            None => {
                return None;
            },
        };
        let message = match json::get(v, "message") {
            Some(m) => match json::get_text(&m) {
                Some(s) => s,
                None => {
                    return None;
                },
            },
            None => {
                return None;
            },
        };
        let data = match optional_member(v, "data") {
            Some(m) => match json::get_text(&m) {
                Some(s) => Some(s),
                None => {
                    return None;
                },
            },
            None => None,
        };
        Some(SidecarError { code, message, data })
    }
}

impl SidecarResponse {
    /// Reads a response from a value.
    pub fn from_value(v: &Value) -> (r: Option<SidecarResponse>)
        ensures
            r matches Some(resp) ==> document_response(document(*v)) == Some(resp@),
            r is None ==> document_response(document(*v)) is None,
    {
        if !json::is_object(v) {
            return None;
        }
        let id = match optional_member(v, "id") {
            Some(m) => match json::get_u64(&m) {
                Some(id) => Some(id),
                None => {
                    return None;
                },
            },
            None => None,
        };
        let error = match optional_member(v, "error") {
            Some(m) => match SidecarError::from_value(&m) {
                Some(e) => Some(e),
                None => {
                    return None;
                },
            },
            None => None,
        };
        let result = json::get(v, "result");
        Some(SidecarResponse { id, result, error })
    }

    /// Whether the response answers the request `id`.
    pub fn answers(&self, id: u64) -> (b: bool)
        ensures
            b == is_matching(self@, id),
    {
        match self.id {
            Some(other) => other == id,
            None => true,
        }
    }

    /// What the response means for the call whose request went out as `id`.
    pub fn verdict(self, id: u64) -> (verdict: LineVerdict)
        ensures
            verdict@ == response_verdict(self@, id),
    {
        if !self.answers(id) {
            return LineVerdict::Skip;
        }
        match self.error {
            Some(e) => LineVerdict::Failed(CallError::Sidecar { code: e.code, message: e.message }),
            None => match self.result {
                Some(v) => LineVerdict::Answer(v),
                None => LineVerdict::Skip,
            },
        }
    }
}

/// What one line of the worker's output means for the call whose request
/// went out as `id`.
pub fn judge_line(line: &str, id: u64) -> (verdict: LineVerdict)
    ensures
        verdict@ == line_verdict(line@, id),
{
    let chars = chars_of(line);
    if blank(chars.as_slice()) {
        return LineVerdict::Skip;
    }
    let marker = chars_of("\"ready\"");
    proof {
        reveal_strlit("\"ready\"");
        assert(marker@ =~= ready_marker());
    }
    if contains(chars.as_slice(), marker.as_slice()) {
        return LineVerdict::Skip;
    }
    let value = match json::parse(line) {
        Ok(value) => value,
        Err(_) => {
            return LineVerdict::Failed(CallError::Protocol);
        },
    };
    match SidecarResponse::from_value(&value) {
        Some(response) => response.verdict(id),
        None => LineVerdict::Failed(CallError::Protocol),
    }
}

/// The texts of a vector of strings.
pub open spec fn texts(lines: Seq<String>) -> Seq<Seq<char>> {
    lines.map_values(|line: String| line@)
}

/// The outcome of a call as plain values.
pub open spec fn outcome_view(outcome: Result<Value, CallError>) -> Result<Json, Fault> {
    match outcome {
        Ok(v) => Ok(document(v)),
        Err(e) => Err(e@),
    }
}

/// How the call whose request went out as `id` ends on the lines `lines`,
/// the worker's whole output: with what the first line that is not skipped
/// means, or with `NoResponse` where every line is skipped.
pub fn receive_lines(lines: &Vec<String>, id: u64) -> (outcome: Result<Value, CallError>)
    ensures
        outcome_view(outcome) == lines_outcome(texts(lines@), id),
{
    let mut i: usize = 0;
    assert(texts(lines@).skip(0) =~= texts(lines@));
    while i < lines.len()
        invariant
            i <= lines.len(),
            lines_outcome(texts(lines@), id) == lines_outcome(texts(lines@).skip(i as int), id),
        decreases lines.len() - i,
    {
        let ghost rest = texts(lines@).skip(i as int);
        assert(rest[0] == lines@[i as int]@);
        assert(rest.drop_first() =~= texts(lines@).skip(i + 1));
        match judge_line(lines[i].as_str(), id) {
            LineVerdict::Skip => {},
            LineVerdict::Answer(v) => {
                return Ok(v);
            },
            LineVerdict::Failed(e) => {
                return Err(e);
            },
        }
        i += 1;
    }
    assert(texts(lines@).skip(i as int).len() == 0);
    Err(CallError::NoResponse)
}

/// Where a call stands.
#[derive(Debug, Clone, Copy, PartialEq, Eq, Structural)]
pub enum CallPhase {
    /// The worker is being started.
    Spawning,
    /// The request line is being written.
    Sending,
    /// Response lines are being read.
    Receiving,
    /// The call is over.
    Finished,
}

/// What the caller reports to a call.
#[derive(Debug, Clone, PartialEq, Eq)]
pub enum CallEvent {
    /// The worker runs, its streams are open.
    Spawned,
    /// The worker could not be started.
    SpawnFailed,
    /// The request line was written and the worker's input closed.
    Sent,
    /// The request line could not be written.
    SendFailed,
    /// The worker wrote this line, given without its line break.
    Line(String),
    /// The worker's output could not be read.
    ReadFailed,
    /// The worker closed its output.
    Closed,
}

/// A `CallEvent` as plain values.
pub enum Event {
    Spawned,
    SpawnFailed,
    Sent,
    SendFailed,
    Line(Seq<char>),
    ReadFailed,
    Closed,
}

impl View for CallEvent {
    type V = Event;

    open spec fn view(&self) -> Event {
        match self {
            CallEvent::Spawned => Event::Spawned,
            CallEvent::SpawnFailed => Event::SpawnFailed,
            CallEvent::Sent => Event::Sent,
            CallEvent::SendFailed => Event::SendFailed,
            CallEvent::Line(line) => Event::Line(line@),
            CallEvent::ReadFailed => Event::ReadFailed,
            CallEvent::Closed => Event::Closed,
        }
    }
}

/// What the caller does next.
#[derive(Debug, PartialEq)]
pub enum CallAction {
    /// Write this line and a line break to the worker's input, then close
    /// that input.
    Send(String),
    /// Read the next line of the worker's output.
    Read,
    /// Leave the worker and return this.
    Return(Result<Value, CallError>),
}

/// A `CallAction` as plain values.
pub enum Action {
    Send(Seq<char>),
    Read,
    Return(Result<Json, Fault>),
}

impl View for CallAction {
    type V = Action;

    open spec fn view(&self) -> Action {
        match self {
            CallAction::Send(line) => Action::Send(line@),
            CallAction::Read => Action::Read,
            CallAction::Return(outcome) => Action::Return(outcome_view(*outcome)),
        }
    }
}

/// The phase after `event` arrives in `phase`, and what the caller does
/// then. `request` is the request of the call: what is sent once the worker
/// runs, and what a response has to match.
///
/// A worker that cannot be started ends the call with `Spawn`. A stream that
/// cannot be written or read ends it with `Protocol`, and so does an event
/// that its phase does not expect. A line is judged by `line_verdict` against
/// the request's identifier; the end of the output ends the call with
/// `NoResponse`.
pub open spec fn next_step(phase: CallPhase, event: Event, request: Request) -> (
    CallPhase,
    Action,
) {
    match (phase, event) {
        (CallPhase::Spawning, Event::Spawned) => (
            CallPhase::Sending,
            Action::Send(request_line(request)),
        ),
        (CallPhase::Spawning, Event::SpawnFailed) => (
            CallPhase::Finished,
            Action::Return(Err(Fault::Spawn)),
        ),
        (CallPhase::Sending, Event::Sent) => (CallPhase::Receiving, Action::Read),
        (CallPhase::Receiving, Event::Line(line)) => match line_verdict(line, request.id) {
            Verdict::Skip => (CallPhase::Receiving, Action::Read),
            Verdict::Answer(v) => (CallPhase::Finished, Action::Return(Ok(v))),
            Verdict::Failed(f) => (CallPhase::Finished, Action::Return(Err(f))),
        },
        (CallPhase::Receiving, Event::Closed) => (
            CallPhase::Finished,
            Action::Return(Err(Fault::NoResponse)),
        ),
        _ => (CallPhase::Finished, Action::Return(Err(Fault::Protocol))),
    }
}

/// What a call in the receiving phase returns in the end, when the worker
/// writes the lines `lines` and then closes its output.
pub open spec fn receiving_ends(lines: Seq<Seq<char>>, request: Request) -> Action
    decreases lines.len(),
{
    if lines.len() == 0 {
        next_step(CallPhase::Receiving, Event::Closed, request).1
    } else {
        let (phase, action) = next_step(CallPhase::Receiving, Event::Line(lines[0]), request);
        if phase == CallPhase::Receiving {
            receiving_ends(lines.drop_first(), request)
        } else {
            action
        }
    }
}

/// One call of the worker, from the worker's start to the returned value.
#[derive(Debug)]
pub struct SidecarCall {
    phase: CallPhase,
    method: String,
    params: Option<Value>,
    id: u64,
}

impl SidecarCall {
    /// Where the call stands.
    pub closed spec fn phase(&self) -> CallPhase {
        self.phase
    }

    /// The method that is called.
    pub closed spec fn method(&self) -> Seq<char> {
        self.method@
    }

    /// The parameters of the call.
    pub closed spec fn params(&self) -> Option<Json> {
        optional_document(self.params)
    }

    /// The identifier under which the request went out, 0 as long as none
    /// was taken.
    pub closed spec fn identifier(&self) -> u64 {
        self.id
    }

    /// The request that the call sends under the identifier `id`.
    pub open spec fn request(&self, id: u64) -> Request {
        Request { id, method: self.method(), params: self.params() }
    }

    /// The identifier of the call once `event` is taken: the next one after
    /// `issued` where the event is the worker's start, else the one it has.
    pub open spec fn identifier_after(&self, event: Event, issued: nat) -> u64 {
        if self.phase() == CallPhase::Spawning && event is Spawned {
            (issued + 1) as u64
        } else {
            self.identifier()
        }
    }

    /// A call of `method` with `params`. The caller starts the worker and
    /// reports `Spawned` or `SpawnFailed`.
    pub fn new(method: &str, params: Option<Value>) -> (call: Self)
        ensures
            call.phase() == CallPhase::Spawning,
            call.method() == method@,
            call.params() == optional_document(params),
            call.identifier() == 0,
    {
        SidecarCall { phase: CallPhase::Spawning, method: method.to_owned(), params, id: 0 }
    }

    /// Where the call stands.
    pub fn current_phase(&self) -> (phase: CallPhase)
        ensures
            phase == self.phase(),
    {
        self.phase
    }

    /// The identifier under which the request went out, 0 as long as none
    /// was taken.
    pub fn current_identifier(&self) -> (id: u64)
        ensures
            id == self.identifier(),
    {
        self.id
    }

    /// Takes `event` and says what the caller does next, as `next_step` has
    /// it. The request gets its identifier when the worker has started, and
    /// only then is one taken from `ids`; the call keeps it, and passes over
    /// the responses to other requests. The line to send holds no line feed.
    pub fn step(&mut self, ids: &mut RequestCorrelator, event: CallEvent) -> (action: CallAction)
        requires
            old(self).phase() == CallPhase::Spawning && event == CallEvent::Spawned ==> old(
                ids,
            ).issued() < u64::MAX,
        ensures
            (final(self).phase(), action@) == next_step(
                old(self).phase(),
                event@,
                old(self).request(old(self).identifier_after(event@, old(ids).issued())),
            ),
            final(self).identifier() == old(self).identifier_after(event@, old(ids).issued()),
            action matches CallAction::Send(line) ==> !line@.contains('\n'),
            final(self).method() == old(self).method(),
            final(self).params() == old(self).params(),
            final(ids).issued() == old(ids).issued() + (if old(self).phase() == CallPhase::Spawning
                && event == CallEvent::Spawned {
                1nat
            } else {
                0nat
            }),
    {
        let phase = self.phase;
        self.phase = CallPhase::Finished;
        match (phase, event) {
            (CallPhase::Spawning, CallEvent::Spawned) => {
                self.id = ids.next_id();
                let request = SidecarRequest {
                    id: self.id,
                    method: self.method.clone(),
                    params: self.params.clone(),
                };
                self.phase = CallPhase::Sending;
                CallAction::Send(request.to_line())
            },
            (CallPhase::Spawning, CallEvent::SpawnFailed) => CallAction::Return(
                Err(CallError::Spawn),
            ),
            (CallPhase::Sending, CallEvent::Sent) => {
                self.phase = CallPhase::Receiving;
                CallAction::Read
            },
            (CallPhase::Receiving, CallEvent::Line(line)) => match judge_line(
                line.as_str(),
                self.id,
            ) {
                LineVerdict::Skip => {
                    self.phase = CallPhase::Receiving;
                    CallAction::Read
                },
                LineVerdict::Answer(v) => CallAction::Return(Ok(v)),
                LineVerdict::Failed(e) => CallAction::Return(Err(e)),
            },
            (CallPhase::Receiving, CallEvent::Closed) => CallAction::Return(
                Err(CallError::NoResponse),
            ),
            _ => CallAction::Return(Err(CallError::Protocol)),
        }
    }
}

/// A finished call stays finished, and only a finished call returns.
pub proof fn lemma_finished_is_final(phase: CallPhase, event: Event, request: Request)
    ensures
        phase == CallPhase::Finished ==> next_step(phase, event, request).0 == CallPhase::Finished,
        next_step(phase, event, request).1 is Return <==> next_step(phase, event, request).0
            == CallPhase::Finished,
{
}

/// A receiving call returns what the first line that is not skipped means,
/// and `NoResponse` where the output ends before such a line.
pub proof fn lemma_receiving_ends(lines: Seq<Seq<char>>, request: Request)
    ensures
        receiving_ends(lines, request) == Action::Return(lines_outcome(lines, request.id)),
    decreases lines.len(),
{
    if lines.len() > 0 {
        lemma_receiving_ends(lines.drop_first(), request);
    }
}

/// Matching: as long as every line is blank, a start-up line, or a response
/// to another request, the call reads on, and ends with `NoResponse` when
/// the output ends.
pub proof fn lemma_unmatched_is_no_response(lines: Seq<Seq<char>>, id: u64)
    requires
        forall|i: int| 0 <= i < lines.len() ==> line_verdict(#[trigger] lines[i], id) is Skip,
    ensures
        lines_outcome(lines, id) == Err::<Json, Fault>(Fault::NoResponse),
    decreases lines.len(),
{
    if lines.len() > 0 {
        assert(line_verdict(lines[0], id) is Skip);
        assert forall|i: int| 0 <= i < lines.drop_first().len() implies line_verdict(
            #[trigger] lines.drop_first()[i],
            id,
        ) is Skip by {
            assert(lines.drop_first()[i] == lines[i + 1]);
        }
        lemma_unmatched_is_no_response(lines.drop_first(), id);
    }
}

/// A response with an identifier other than the request's is passed over,
/// whatever else it holds; one with a result and no error answers the
/// request it matches, also where the result is `null`.
pub proof fn lemma_response_verdict(r: Response, id: u64)
    ensures
        r.id is Some && r.id != Some(id) ==> response_verdict(r, id) is Skip,
        is_matching(r, id) && r.error is None && r.result is Some ==> response_verdict(r, id)
            == Verdict::Answer(r.result->0),
        is_matching(r, id) && r.error is None && r.result == Some(Json::Null) ==> response_verdict(
            r,
            id,
        ) == Verdict::Answer(Json::Null),
{
}

} // verus!
