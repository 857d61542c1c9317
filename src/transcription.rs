use vstd::prelude::*;
use vstd::string::StringExecFns;
use crate::keywords::{launch_for, launcher_for, Launcher};

verus! {

/// Seconds to wait between two status requests for an unfinished job.
pub const POLL_INTERVAL_SECS: u64 = 10;

#[verifier::external_type_specification]
#[verifier::external_body]
pub struct ExJsonValue(serde_json::Value);

/// Lower-case hexadecimal digit of `d`, for `0 <= d < 16`.
pub open spec fn hex_digit(d: int) -> char {
    seq!['0', '1', '2', '3', '4', '5', '6', '7', '8', '9', 'a', 'b', 'c', 'd', 'e', 'f'][d]
}

/// How one character stands inside a JSON string literal: quote and
/// backslash escaped by a backslash, the usual short escapes for backspace,
/// tab, line feed, form feed and carriage return, other control characters
/// as `\u00XX`, everything else as itself.
pub open spec fn escape_json_char(c: char) -> Seq<char> {
    if c == '"' {
        seq!['\\', '"']
    } else if c == '\\' {
        seq!['\\', '\\']
    } else if c == '\x08' {
        seq!['\\', 'b']
    } else if c == '\t' {
        seq!['\\', 't']
    } else if c == '\n' {
        seq!['\\', 'n']
    } else if c == '\x0C' {
        seq!['\\', 'f']
    } else if c == '\r' {
        seq!['\\', 'r']
    } else if (c as u32) < 0x20 {
        seq!['\\', 'u', '0', '0', hex_digit((c as u32) as int / 16), hex_digit((c as u32) as int % 16)]
    } else {
        seq![c]
    }
}

/// The escaped characters of `s`, in order.
pub open spec fn escape_json(s: Seq<char>) -> Seq<char>
    decreases s.len(),
{
    if s.len() == 0 {
        Seq::empty()
    } else {
        escape_json(s.drop_last()) + escape_json_char(s.last())
    }
}

/// The JSON string literal that denotes `s`.
pub open spec fn json_quoted(s: Seq<char>) -> Seq<char> {
    seq!['"'] + escape_json(s) + seq!['"']
}

/// Relies on serde_json::to_string on a `str`: a quote, each character as
/// `escape_json_char` gives it, a quote. Writing a string into memory does
/// not fail.
#[verifier::external_body]
fn quote_json(s: &str) -> (r: String)
    ensures
        r@ == json_quoted(s@),
{
    serde_json::to_string(s).unwrap_or_default()
}

/// Whether serde_json reads the text as one JSON document.
pub uninterp spec fn json_document(text: Seq<char>) -> bool;

/// The string member `key` of the JSON document that serde_json reads from
/// the text; `None` when it is absent, not a string, or the document is not
/// an object.
pub uninterp spec fn json_string_member(text: Seq<char>, key: Seq<char>) -> Option<Seq<char>>;

/// A parsed JSON document and the text it was parsed from.
struct JsonDoc {
    value: serde_json::Value,
    source: Ghost<Seq<char>>,
}

/// Relies on serde_json::from_str: it reads a JSON document from the text,
/// or fails, depending on the text alone.
#[verifier::external_body]
fn parse_json(text: &str) -> (r: Option<JsonDoc>)
    ensures
        r is Some == json_document(text@),
        r matches Some(d) ==> d.source@ == text@,
{
    serde_json::from_str::<serde_json::Value>(text).ok().map(
        |value| JsonDoc { value, source: Ghost(text@) },
    )
}

/// Relies on serde_json::Value::get and Value::as_str: the text of the
/// string member `key` of the document parsed from `d.source`.
#[verifier::external_body]
fn string_member(d: &JsonDoc, key: &str) -> (r: Option<String>)
    ensures
        text_view(r) == json_string_member(d.source@, key@),
{
    d.value.get(key).and_then(|m| m.as_str()).map(|t| t.to_owned())
}

/// Why a transcription did not produce a transcript.
#[derive(Debug)]
pub enum TranscribeError {
    /// A response body was not a JSON document.
    InvalidResponse,
    /// The upload response named no upload URL.
    MissingUploadUrl,
    /// The job-creation response named no transcript id.
    MissingTranscriptId,
    /// The remote service reported the job as failed, with this message.
    Remote(String),
    /// A response arrived after the job had ended.
    AlreadyFinished,
}

pub ghost enum ErrorView {
    InvalidResponse,
    MissingUploadUrl,
    MissingTranscriptId,
    Remote(Seq<char>),
    AlreadyFinished,
}

impl View for TranscribeError {
    type V = ErrorView;

    open spec fn view(&self) -> ErrorView {
        match self {
            TranscribeError::InvalidResponse => ErrorView::InvalidResponse,
            TranscribeError::MissingUploadUrl => ErrorView::MissingUploadUrl,
            TranscribeError::MissingTranscriptId => ErrorView::MissingTranscriptId,
            TranscribeError::Remote(m) => ErrorView::Remote(m@),
            TranscribeError::AlreadyFinished => ErrorView::AlreadyFinished,
        }
    }
}

/// What the caller must do next for a transcription job.
#[derive(Debug)]
pub enum Action {
    /// POST the audio bytes, as `audio/wav`, to `url`.
    Upload { url: String, audio: Vec<u8> },
    /// POST the JSON `body` to `url` to create the job.
    CreateJob { url: String, body: String },
    /// Wait `delay_secs` seconds, then GET the job status from `url`.
    Poll { url: String, delay_secs: u64 },
    /// The job completed with this transcript, which selects `launch`.
    Completed { text: String, launch: Option<Launcher> },
    /// The job ended without a transcript.
    Failed(TranscribeError),
}

pub ghost enum ActionView {
    Upload { url: Seq<char>, audio: Seq<u8> },
    CreateJob { url: Seq<char>, body: Seq<char> },
    Poll { url: Seq<char>, delay_secs: nat },
    Completed { text: Seq<char>, launch: Option<Launcher> },
    Failed(ErrorView),
}

impl View for Action {
    type V = ActionView;

    open spec fn view(&self) -> ActionView {
        match self {
            Action::Upload { url, audio } => ActionView::Upload { url: url@, audio: audio@ },
            Action::CreateJob { url, body } => ActionView::CreateJob { url: url@, body: body@ },
            Action::Poll { url, delay_secs } => ActionView::Poll {
                url: url@,
                delay_secs: *delay_secs as nat,
            },
            Action::Completed { text, launch } => ActionView::Completed {
                text: text@,
                launch: *launch,
            },
            Action::Failed(e) => ActionView::Failed(e@),
        }
    }
}

/// The string members of a response that the job reads.
pub struct ResponseFields {
    pub upload_url: Option<String>,
    pub id: Option<String>,
    pub status: Option<String>,
    pub text: Option<String>,
    pub error: Option<String>,
}

pub ghost struct FieldsView {
    pub upload_url: Option<Seq<char>>,
    pub id: Option<Seq<char>>,
    pub status: Option<Seq<char>>,
    pub text: Option<Seq<char>>,
    pub error: Option<Seq<char>>,
}

pub open spec fn text_view(o: Option<String>) -> Option<Seq<char>> {
    match o {
        Some(s) => Some(s@),
        None => None,
    }
}

impl View for ResponseFields {
    type V = FieldsView;

    open spec fn view(&self) -> FieldsView {
        FieldsView {
            upload_url: text_view(self.upload_url),
            id: text_view(self.id),
            status: text_view(self.status),
            text: text_view(self.text),
            error: text_view(self.error),
        }
    }
}

pub ghost enum PhaseView {
    Uploading,
    CreatingJob,
    Polling(Seq<char>),
    Finished,
}

pub ghost struct JobState {
    pub upload_url: Seq<char>,
    pub transcript_url: Seq<char>,
    pub phase: PhaseView,
}

enum Phase {
    Uploading,
    CreatingJob,
    Polling(String),
    Finished,
}

/// A transcription job: upload, job creation, then status polling until the
/// job completes or fails.
pub struct TranscriptionJob {
    upload_url: String,
    transcript_url: String,
    phase: Phase,
}

impl View for TranscriptionJob {
    type V = JobState;

    closed spec fn view(&self) -> JobState {
        JobState {
            upload_url: self.upload_url@,
            transcript_url: self.transcript_url@,
            phase: match self.phase {
                Phase::Uploading => PhaseView::Uploading,
                Phase::CreatingJob => PhaseView::CreatingJob,
                Phase::Polling(id) => PhaseView::Polling(id@),
                Phase::Finished => PhaseView::Finished,
            },
        }
    }
}

/// `o`'s text, or `d` when absent.
pub open spec fn or_default(o: Option<Seq<char>>, d: Seq<char>) -> Seq<char> {
    match o {
        Some(s) => s,
        None => d,
    }
}

/// The body that creates a job for the audio at the URL whose JSON string
/// literal is `quoted`.
pub open spec fn job_body(quoted: Seq<char>) -> Seq<char> {
    "{\"audio_url\":"@ + quoted + "}"@
}

/// The status URL of job `id`.
pub open spec fn status_url(base: Seq<char>, id: Seq<char>) -> Seq<char> {
    base + "/"@ + id
}

pub open spec fn with_phase(s: JobState, p: PhaseView) -> JobState {
    JobState { upload_url: s.upload_url, transcript_url: s.transcript_url, phase: p }
}

/// The next state and action after a response with these members.
pub open spec fn step(s: JobState, f: FieldsView) -> (JobState, ActionView) {
    match s.phase {
        PhaseView::Uploading => match f.upload_url {
            Some(u) => (
                with_phase(s, PhaseView::CreatingJob),
                ActionView::CreateJob {
                    url: s.transcript_url,
                    body: job_body(json_quoted(u)),
                },
            ),
            None => (
                with_phase(s, PhaseView::Finished),
                ActionView::Failed(ErrorView::MissingUploadUrl),
            ),
        },
        PhaseView::CreatingJob => match f.id {
            Some(id) => (
                with_phase(s, PhaseView::Polling(id)),
                ActionView::Poll { url: status_url(s.transcript_url, id), delay_secs: 0 },
            ),
            None => (
                with_phase(s, PhaseView::Finished),
                ActionView::Failed(ErrorView::MissingTranscriptId),
            ),
        },
        PhaseView::Polling(id) => {
            let status = or_default(f.status, Seq::empty());
            if status == "completed"@ {
                let text = or_default(f.text, Seq::empty());
                (
                    with_phase(s, PhaseView::Finished),
                    ActionView::Completed { text, launch: launcher_for(text) },
                )
            } else if status == "failed"@ {
                (
                    with_phase(s, PhaseView::Finished),
                    ActionView::Failed(
                        ErrorView::Remote(or_default(f.error, "Unknown error"@)),
                    ),
                )
            } else {
                (
                    s,
                    ActionView::Poll {
                        url: status_url(s.transcript_url, id),
                        delay_secs: POLL_INTERVAL_SECS as nat,
                    },
                )
            }
        },
        PhaseView::Finished => (s, ActionView::Failed(ErrorView::AlreadyFinished)),
    }
}

/// The next state and action after a response that is not JSON.
pub open spec fn step_invalid(s: JobState) -> (JobState, ActionView) {
    match s.phase {
        PhaseView::Finished => (s, ActionView::Failed(ErrorView::AlreadyFinished)),
        _ => (with_phase(s, PhaseView::Finished), ActionView::Failed(ErrorView::InvalidResponse)),
    }
}

/// The members of a response body that the job reads.
pub open spec fn fields_of(body: Seq<char>) -> FieldsView {
    FieldsView {
        upload_url: json_string_member(body, "upload_url"@),
        id: json_string_member(body, "id"@),
        status: json_string_member(body, "status"@),
        text: json_string_member(body, "text"@),
        error: json_string_member(body, "error"@),
    }
}

/// The job-creation body for an audio URL whose JSON string literal is
/// `quoted`: `{"audio_url":` followed by it and a closing brace.
pub fn job_request_body(quoted: &str) -> (r: String)
    ensures
        r@ == job_body(quoted@),
{
    let mut body = "{\"audio_url\":".to_owned();
    body.append(quoted);
    body.append("}");
    body
}

/// The status URL of job `id` under the transcript endpoint `base`.
pub fn job_status_url(base: &str, id: &str) -> (r: String)
    ensures
        r@ == status_url(base@, id@),
{
    let mut url = base.to_owned();
    url.append("/");
    url.append(id);
    url
}

/// The members of a response body that the job reads; `None` when the body
/// is not a JSON document.
fn read_fields(body: &str) -> (r: Option<ResponseFields>)
    ensures
        r is Some == json_document(body@),
        r matches Some(f) ==> f@ == fields_of(body@),
{
    match parse_json(body) {
        Some(doc) => Some(
            ResponseFields {
                upload_url: string_member(&doc, "upload_url"),
                id: string_member(&doc, "id"),
                status: string_member(&doc, "status"),
                text: string_member(&doc, "text"),
                error: string_member(&doc, "error"),
            },
        ),
        None => None,
    }
}

fn text_or(o: Option<String>, d: &str) -> (r: String)
    ensures
        r@ == or_default(text_view(o), d@),
{
    match o {
        Some(s) => s,
        None => d.to_owned(),
    }
}

impl TranscriptionJob {
    /// Begins a job for `audio`: the first action uploads it.
    pub fn start(upload_url: &str, transcript_url: &str, audio: Vec<u8>) -> (r: (
        TranscriptionJob,
        Action,
    ))
        ensures
            r.0@ == (JobState {
                upload_url: upload_url@,
                transcript_url: transcript_url@,
                phase: PhaseView::Uploading,
            }),
            r.1@ == (ActionView::Upload { url: upload_url@, audio: audio@ }),
    {
        let job = TranscriptionJob {
            upload_url: upload_url.to_owned(),
            transcript_url: transcript_url.to_owned(),
            phase: Phase::Uploading,
        };
        let action = Action::Upload { url: upload_url.to_owned(), audio };
        (job, action)
    }

    /// Whether the job has ended, with a transcript or a failure.
    pub fn is_finished(&self) -> (r: bool)
        ensures
            r == (self@.phase is Finished),
    {
        match self.phase {
            Phase::Finished => true,
            _ => false,
        }
    }

    /// Advances the job on a response whose members are `f`.
    pub fn on_fields(&mut self, f: ResponseFields) -> (r: Action)
        ensures
            (final(self)@, r@) == step(old(self)@, f@),
    {
        match self.phase {
            Phase::Uploading => match f.upload_url {
                Some(u) => {
                    let quoted = quote_json(u.as_str());
                    self.phase = Phase::CreatingJob;
                    Action::CreateJob {
                        url: self.transcript_url.clone(),
                        body: job_request_body(quoted.as_str()),
                    }
                },
                None => {
                    self.phase = Phase::Finished;
                    Action::Failed(TranscribeError::MissingUploadUrl)
                },
            },
            Phase::CreatingJob => match f.id {
                Some(id) => {
                    let url = job_status_url(self.transcript_url.as_str(), id.as_str());
                    self.phase = Phase::Polling(id);
                    Action::Poll { url, delay_secs: 0 }
                },
                None => {
                    self.phase = Phase::Finished;
                    Action::Failed(TranscribeError::MissingTranscriptId)
                },
            },
            Phase::Polling(ref id) => {
                proof {
                    reveal_strlit("");
                    assert(""@ =~= Seq::<char>::empty());
                }
                let url = job_status_url(self.transcript_url.as_str(), id.as_str());
                let status = text_or(f.status, "");
                let completed = "completed".to_owned();
                let failed = "failed".to_owned();
                if status == completed {
                    let text = text_or(f.text, "");
                    let launch = launch_for(text.as_str());
                    self.phase = Phase::Finished;
                    Action::Completed { text, launch }
                } else if status == failed {
                    let message = text_or(f.error, "Unknown error");
                    self.phase = Phase::Finished;
                    Action::Failed(TranscribeError::Remote(message))
                } else {
                    Action::Poll { url, delay_secs: POLL_INTERVAL_SECS }
                }
            },
            Phase::Finished => Action::Failed(TranscribeError::AlreadyFinished),
        }
    }

    /// Advances the job on a response body: a body that is not JSON ends the
    /// job; otherwise its string members drive the step.
    pub fn on_response(&mut self, body: &str) -> (r: Action)
        ensures
            json_document(body@) ==> (final(self)@, r@) == step(old(self)@, fields_of(body@)),
            !json_document(body@) ==> (final(self)@, r@) == step_invalid(old(self)@),
    {
        match read_fields(body) {
            Some(f) => self.on_fields(f),
            None => {
                if self.is_finished() {
                    Action::Failed(TranscribeError::AlreadyFinished)
                } else {
                    self.phase = Phase::Finished;
                    Action::Failed(TranscribeError::InvalidResponse)
                }
            },
        }
    }
}

/// While a job is polled, a status of `completed` ends it with the
/// transcript (absent text reads as empty) and the launcher that text
/// selects; `failed` ends it with the remote message, or `Unknown error`;
/// any other status, or none, keeps the job as it is and polls the same URL
/// again after the poll interval.
pub proof fn polling_ends_only_on_final_status(s: JobState, f: FieldsView)
    requires
        s.phase is Polling,
    ensures
        ({
            let (s2, a) = step(s, f);
            let status = or_default(f.status, Seq::empty());
            let text = or_default(f.text, Seq::empty());
            &&& status == "completed"@ ==> s2.phase is Finished && a == ActionView::Completed {
                text,
                launch: launcher_for(text),
            }
            &&& status == "failed"@ ==> s2.phase is Finished && a == ActionView::Failed(
                ErrorView::Remote(or_default(f.error, "Unknown error"@)),
            )
            &&& status != "completed"@ && status != "failed"@ ==> s2 == s && a
                == ActionView::Poll {
                url: status_url(s.transcript_url, s.phase->Polling_0),
                delay_secs: 10,
            }
        }),
{
    reveal_strlit("completed");
    reveal_strlit("failed");
    assert("completed"@.len() != "failed"@.len());
}

/// Once a job has ended, every further response leaves it ended.
pub proof fn finished_is_final(s: JobState, f: FieldsView)
    requires
        s.phase is Finished,
    ensures
        step(s, f) == (s, ActionView::Failed(ErrorView::AlreadyFinished)),
        step_invalid(s) == (s, ActionView::Failed(ErrorView::AlreadyFinished)),
{
}

} // verus!
