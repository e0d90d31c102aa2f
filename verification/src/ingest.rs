//! The upload session: what happens to one multipart request, field by
//! field and chunk by chunk.
//!
//! Reading the body and writing the files is the caller's work. The session
//! decides: the caller performs the `Action` that the session asks for,
//! reports how it went, and gets the next action. Nothing is buffered; a
//! chunk is reported by its length only.

use vstd::prelude::*;
use crate::MAX_UPLOAD_SIZE;
use crate::broadcast::EventBroadcaster;
use crate::events::{UploadEvent, UploadEventView};
use crate::naming::{candidate_name, effective_name, name_or_fallback, target, TargetPath, TargetPathView};
use crate::routes::{Reply, ServiceError};

verus! {

/// What the caller reports to the session.
#[derive(Debug, PartialEq, Eq)]
pub enum Report {
    /// The body's next field has begun. `file_name` is the file name that
    /// the field carries, `None` where it carries none.
    Field { file_name: Option<String> },
    /// The body has ended: there is no further field.
    EndOfBody,
    /// The body is not multipart data with the declared boundary.
    Malformed,
    /// Whether the path that was to be probed exists.
    Probed { exists: bool },
    /// Whether the file that was to be created is open for writing.
    Created { ok: bool },
    /// The field's next chunk has arrived and holds `len` bytes.
    Chunk { len: u64 },
    /// The field has ended: there is no further chunk.
    EndOfField,
    /// Whether the chunk that was to be written is in the file.
    Written { ok: bool },
}

/// A `Report` with its name as plain text.
pub enum ReportView {
    Field { file_name: Option<Seq<char>> },
    EndOfBody,
    Malformed,
    Probed { exists: bool },
    Created { ok: bool },
    Chunk { len: u64 },
    EndOfField,
    Written { ok: bool },
}

impl View for Report {
    type V = ReportView;

    open spec fn view(&self) -> ReportView {
        match self {
            Report::Field { file_name: Some(name) } => ReportView::Field {
                file_name: Some(name@),
            },
            Report::Field { file_name: None } => ReportView::Field { file_name: None },
            Report::EndOfBody => ReportView::EndOfBody,
            Report::Malformed => ReportView::Malformed,
            Report::Probed { exists } => ReportView::Probed { exists: *exists },
            Report::Created { ok } => ReportView::Created { ok: *ok },
            Report::Chunk { len } => ReportView::Chunk { len: *len },
            Report::EndOfField => ReportView::EndOfField,
            Report::Written { ok } => ReportView::Written { ok: *ok },
        }
    }
}

/// What the session asks the caller to do next.
#[derive(Debug, PartialEq, Eq)]
pub enum Action {
    /// Read on to the body's next field.
    NextField,
    /// Find out whether the path exists.
    Probe(TargetPath),
    /// Create the file, empty, and keep it open for the field's chunks.
    Create(TargetPath),
    /// Read the field's next chunk.
    NextChunk,
    /// Write the chunk that was just reported to the open file.
    Write,
    /// Answer the request; the session is over.
    Respond(Reply),
}

/// An `Action` with its path as plain text.
pub enum ActionView {
    NextField,
    Probe(TargetPathView),
    Create(TargetPathView),
    NextChunk,
    Write,
    Respond(Reply),
}

impl View for Action {
    type V = ActionView;

    open spec fn view(&self) -> ActionView {
        match self {
            Action::NextField => ActionView::NextField,
            Action::Probe(path) => ActionView::Probe(path@),
            Action::Create(path) => ActionView::Create(path@),
            Action::NextChunk => ActionView::NextChunk,
            Action::Write => ActionView::Write,
            Action::Respond(reply) => ActionView::Respond(*reply),
        }
    }
}

/// Where a session stands.
pub enum Phase {
    /// Between fields.
    AwaitingField,
    /// Looking for a free name for the file `name`; candidate `index` is
    /// being probed.
    Probing { name: String, index: u64 },
    /// Candidate `index` was free and its file is being created.
    Creating { name: String, index: u64 },
    /// The file is open and holds `written` bytes; the next chunk is awaited.
    Receiving { name: String, written: u64 },
    /// A chunk is being written, after which the file holds `written` bytes.
    Writing { name: String, written: u64 },
    /// The request has its answer.
    Finished { reply: Reply },
}

/// A `Phase` with its name as plain text.
pub enum PhaseView {
    AwaitingField,
    Probing { name: Seq<char>, index: u64 },
    Creating { name: Seq<char>, index: u64 },
    Receiving { name: Seq<char>, written: u64 },
    Writing { name: Seq<char>, written: u64 },
    Finished { reply: Reply },
}

impl View for Phase {
    type V = PhaseView;

    open spec fn view(&self) -> PhaseView {
        match self {
            Phase::AwaitingField => PhaseView::AwaitingField,
            Phase::Probing { name, index } => PhaseView::Probing { name: name@, index: *index },
            Phase::Creating { name, index } => PhaseView::Creating { name: name@, index: *index },
            Phase::Receiving { name, written } => PhaseView::Receiving {
                name: name@,
                written: *written,
            },
            Phase::Writing { name, written } => PhaseView::Writing {
                name: name@,
                written: *written,
            },
            Phase::Finished { reply } => PhaseView::Finished { reply: *reply },
        }
    }
}

/// The mathematical model of a session: the directory it writes to, the
/// boundary of its body, and where it stands.
pub struct SessionView {
    pub dir: Seq<char>,
    pub boundary: Seq<char>,
    pub phase: PhaseView,
}

/// What one report leads to: the event to publish, if any, and the error
/// that occurred, if any.
pub struct Step {
    pub event: Option<UploadEvent>,
    pub failure: Option<ServiceError>,
}

impl SessionView {
    /// The session in another phase.
    pub open spec fn at(self, phase: PhaseView) -> SessionView {
        SessionView { phase, ..self }
    }

    /// The place of candidate `index` for `name` in the session's directory.
    pub open spec fn place(self, name: Seq<char>, index: u64) -> TargetPathView {
        TargetPathView {
            dir: self.dir,
            file_name: candidate_name(name, index as nat),
            index: index as nat,
        }
    }

    /// The session after `report`. A report that the session's phase does
    /// not wait for changes nothing. A file is given up, and the session is
    /// between fields again, when it could not be created or written, or
    /// when every candidate up to the last index is taken.
    pub open spec fn next(self, report: ReportView) -> SessionView {
        match (self.phase, report) {
            (PhaseView::AwaitingField, ReportView::Field { file_name: Some(requested) }) => self.at(
                PhaseView::Probing { name: effective_name(requested), index: 0 },
            ),
            (PhaseView::AwaitingField, ReportView::EndOfBody) => self.at(
                PhaseView::Finished { reply: Reply::Done },
            ),
            (PhaseView::AwaitingField, ReportView::Malformed) => self.at(
                PhaseView::Finished { reply: Reply::InvalidMultipart },
            ),
            (PhaseView::Probing { name, index }, ReportView::Probed { exists }) => if !exists {
                self.at(PhaseView::Creating { name, index })
            } else if index < u64::MAX {
                self.at(PhaseView::Probing { name, index: (index + 1) as u64 })
            } else {
                self.at(PhaseView::AwaitingField)
            },
            (PhaseView::Creating { name, index }, ReportView::Created { ok }) => if ok {
                self.at(PhaseView::Receiving { name, written: 0 })
            } else {
                self.at(PhaseView::AwaitingField)
            },
            (PhaseView::Receiving { name, written }, ReportView::Chunk { len }) => if written + len
                <= MAX_UPLOAD_SIZE {
                self.at(PhaseView::Writing { name, written: (written + len) as u64 })
            } else {
                self.at(PhaseView::Finished { reply: Reply::FileTooLarge })
            },
            (PhaseView::Receiving { name, written }, ReportView::EndOfField) => self.at(
                PhaseView::AwaitingField,
            ),
            (PhaseView::Receiving { name, written }, ReportView::Malformed) => self.at(
                PhaseView::Finished { reply: Reply::InvalidMultipart },
            ),
            (PhaseView::Writing { name, written }, ReportView::Written { ok }) => if ok {
                self.at(PhaseView::Receiving { name, written })
            } else {
                self.at(PhaseView::AwaitingField)
            },
            _ => self,
        }
    }

    /// The event that `report` makes the session publish.
    pub open spec fn emitted(self, report: ReportView) -> Option<UploadEventView> {
        match (self.phase, report) {
            (PhaseView::Probing { name, index }, ReportView::Probed { exists: false }) => Some(
                UploadEventView::Started { file_name: name },
            ),
            (PhaseView::Writing { name, written }, ReportView::Written { ok: true }) => Some(
                UploadEventView::Progress { file_name: name, bytes_written: written },
            ),
            (PhaseView::Receiving { name, written }, ReportView::EndOfField) => Some(
                UploadEventView::Done { file_name: name },
            ),
            _ => None,
        }
    }

    /// The error that `report` means for the session. `MalformedRequest` and
    /// `PayloadTooLarge` end the request; `IoError` ends the current file.
    pub open spec fn failure(self, report: ReportView) -> Option<ServiceError> {
        match (self.phase, report) {
            (PhaseView::AwaitingField, ReportView::Malformed) => Some(
                ServiceError::MalformedRequest,
            ),
            (PhaseView::Receiving { name, written }, ReportView::Malformed) => Some(
                ServiceError::MalformedRequest,
            ),
            (PhaseView::Receiving { name, written }, ReportView::Chunk { len }) => if written + len
                <= MAX_UPLOAD_SIZE {
                None
            } else {
                Some(ServiceError::PayloadTooLarge)
            },
            (PhaseView::Probing { name, index }, ReportView::Probed { exists: true }) => if index
                < u64::MAX {
                None
            } else {
                Some(ServiceError::IoError)
            },
            (PhaseView::Creating { name, index }, ReportView::Created { ok: false }) => Some(
                ServiceError::IoError,
            ),
            (PhaseView::Writing { name, written }, ReportView::Written { ok: false }) => Some(
                ServiceError::IoError,
            ),
            _ => None,
        }
    }

    /// What the session waits for the caller to do.
    pub open spec fn pending(self) -> ActionView {
        match self.phase {
            PhaseView::AwaitingField => ActionView::NextField,
            PhaseView::Probing { name, index } => ActionView::Probe(self.place(name, index)),
            PhaseView::Creating { name, index } => ActionView::Create(self.place(name, index)),
            PhaseView::Receiving { .. } => ActionView::NextChunk,
            PhaseView::Writing { .. } => ActionView::Write,
            PhaseView::Finished { reply } => ActionView::Respond(reply),
        }
    }
}

/// The views of an optional event.
pub open spec fn event_view(event: Option<UploadEvent>) -> Option<UploadEventView> {
    match event {
        Some(e) => Some(e@),
        None => None,
    }
}

/// The boundary that a `content-type` header declares for a multipart
/// body, as `multer::parse_boundary` reads it: `None` where the header does
/// not announce `multipart/form-data` or names no boundary.
pub uninterp spec fn declared_boundary(content_type: Seq<char>) -> Option<Seq<char>>;

/// multer's `Error`, which says why a header or a body was refused. Nothing
/// of what it holds is known here.
#[verifier::external_type_specification]
#[verifier::external_body]
pub struct ExBoundaryError(multer::Error);

/// `multer::parse_boundary`: reads the header value as a media type and
/// gives the value of its `boundary` parameter, or an error where the type
/// is not `multipart/form-data` or has no such parameter. The result depends
/// on the text alone, and the contract gives it the name
/// `declared_boundary`.
#[verifier::external_body]
fn parse_boundary(content_type: &str) -> (parsed: Result<String, multer::Error>)
    ensures
        match parsed {
            Ok(boundary) => declared_boundary(content_type@) == Some(boundary@),
            Err(_) => declared_boundary(content_type@) is None,
        },
{
    multer::parse_boundary(content_type)
}

/// One multipart request on its way through the service.
pub struct UploadSession {
    dir: String,
    boundary: String,
    phase: Phase,
}

impl View for UploadSession {
    type V = SessionView;

    closed spec fn view(&self) -> SessionView {
        SessionView { dir: self.dir@, boundary: self.boundary@, phase: self.phase@ }
    }
}

/// The session that a request begins with: between fields, nothing done.
pub open spec fn opened(dir: Seq<char>, boundary: Seq<char>) -> SessionView {
    SessionView { dir, boundary, phase: PhaseView::AwaitingField }
}

impl UploadSession {
    /// Opens a session that writes to `dir`. `boundary` is the boundary that
    /// the request declared, `None` where it declared none: then the request
    /// is refused as malformed and there is no session.
    pub fn open(dir: &str, boundary: Option<String>) -> (session: Result<
        UploadSession,
        ServiceError,
    >)
        ensures
            match boundary {
                Some(declared) => session matches Ok(s) && s@ == opened(dir@, declared@),
                None => session matches Err(e) && e == ServiceError::MalformedRequest,
            },
    {
        match boundary {
            Some(declared) => Ok(
                UploadSession {
                    dir: dir.to_owned(),
                    boundary: declared,
                    phase: Phase::AwaitingField,
                },
            ),
            None => Err(ServiceError::MalformedRequest),
        }
    }

    /// The directory that the session writes to.
    pub fn dir(&self) -> (dir: &String)
        ensures
            dir@ == self@.dir,
    {
        &self.dir
    }

    /// The boundary between the parts of the session's body.
    pub fn boundary(&self) -> (boundary: &String)
        ensures
            boundary@ == self@.boundary,
    {
        &self.boundary
    }

    /// What the session waits for the caller to do.
    pub fn pending(&self) -> (action: Action)
        ensures
            action@ == self@.pending(),
    {
        match &self.phase {
            Phase::AwaitingField => Action::NextField,
            Phase::Probing { name, index } => Action::Probe(
                target(self.dir.as_str(), name.as_str(), *index),
            ),
            Phase::Creating { name, index } => Action::Create(
                target(self.dir.as_str(), name.as_str(), *index),
            ),
            Phase::Receiving { .. } => Action::NextChunk,
            Phase::Writing { .. } => Action::Write,
            Phase::Finished { reply } => Action::Respond(*reply),
        }
    }

    /// Takes `report` and moves the session on. The result holds the event
    /// to publish and the error that the report meant, if any; `pending`
    /// then says what to do next.
    pub fn step(&mut self, report: Report) -> (step: Step)
        ensures
            final(self)@ == old(self)@.next(report@),
            event_view(step.event) == old(self)@.emitted(report@),
            step.failure == old(self)@.failure(report@),
    {
        let quiet = Step { event: None, failure: None };
        let moved: Option<(Phase, Step)> = match &self.phase {
            Phase::AwaitingField => match report {
                Report::Field { file_name: Some(requested) } => Some(
                    (
                        Phase::Probing { name: name_or_fallback(requested.as_str()), index: 0 },
                        quiet,
                    ),
                ),
                Report::EndOfBody => Some((Phase::Finished { reply: Reply::Done }, quiet)),
                Report::Malformed => Some(
                    (
                        Phase::Finished { reply: Reply::InvalidMultipart },
                        Step { event: None, failure: Some(ServiceError::MalformedRequest) },
                    ),
                ),
                _ => None,
            },
            Phase::Probing { name, index } => match report {
                Report::Probed { exists } => if !exists {
                    Some(
                        (
                            Phase::Creating { name: name.clone(), index: *index },
                            Step {
                                event: Some(UploadEvent::Started { file_name: name.clone() }),
                                failure: None,
                            },
                        ),
                    )
                } else if *index < u64::MAX {
                    Some((Phase::Probing { name: name.clone(), index: *index + 1 }, quiet))
                } else {
                    Some(
                        (
                            Phase::AwaitingField,
                            Step { event: None, failure: Some(ServiceError::IoError) },
                        ),
                    )
                },
                _ => None,
            },
            Phase::Creating { name, index } => match report {
                Report::Created { ok } => if ok {
                    Some((Phase::Receiving { name: name.clone(), written: 0 }, quiet))
                } else {
                    Some(
                        (
                            Phase::AwaitingField,
                            Step { event: None, failure: Some(ServiceError::IoError) },
                        ),
                    )
                },
                _ => None,
            },
            Phase::Receiving { name, written } => match report {
                Report::Chunk { len } => match written.checked_add(len) {
                    Some(total) if total <= MAX_UPLOAD_SIZE => Some(
                        (Phase::Writing { name: name.clone(), written: total }, quiet),
                    ),
                    _ => Some(
                        (
                            Phase::Finished { reply: Reply::FileTooLarge },
                            Step { event: None, failure: Some(ServiceError::PayloadTooLarge) },
                        ),
                    ),
                },
                Report::EndOfField => Some(
                    (
                        Phase::AwaitingField,
                        Step {
                            event: Some(UploadEvent::Done { file_name: name.clone() }),
                            failure: None,
                        },
                    ),
                ),
                Report::Malformed => Some(
                    (
                        Phase::Finished { reply: Reply::InvalidMultipart },
                        Step { event: None, failure: Some(ServiceError::MalformedRequest) },
                    ),
                ),
                _ => None,
            },
            Phase::Writing { name, written } => match report {
                Report::Written { ok } => if ok {
                    Some(
                        (
                            Phase::Receiving { name: name.clone(), written: *written },
                            Step {
                                event: Some(
                                    UploadEvent::Progress {
                                        file_name: name.clone(),
                                        bytes_written: *written,
                                    },
                                ),
                                failure: None,
                            },
                        ),
                    )
                } else {
                    Some(
                        (
                            Phase::AwaitingField,
                            Step { event: None, failure: Some(ServiceError::IoError) },
                        ),
                    )
                },
                _ => None,
            },
            Phase::Finished { .. } => None,
        };
        match moved {
            Some((phase, step)) => {
                self.phase = phase;
                step
            },
            None => Step { event: None, failure: None },
        }
    }
}

impl UploadSession {
    /// Takes `report` as `step` does, and publishes the event that it leads
    /// to on `hub`.
    pub fn advance(&mut self, hub: &EventBroadcaster, report: Report) -> (step: Step)
        ensures
            final(self)@ == old(self)@.next(report@),
            event_view(step.event) == old(self)@.emitted(report@),
            step.failure == old(self)@.failure(report@),
    {
        let step = self.step(report);
        match &step.event {
            Some(event) => hub.publish(event),
            None => {},
        }
        step
    }
}

/// Opens the session for a request with the header value `content_type`
/// (`None` where the request has no such header) that writes to `dir`.
/// There is a session exactly if the header declares a boundary.
pub fn begin_upload(dir: &str, content_type: Option<&str>) -> (session: Result<
    UploadSession,
    ServiceError,
>)
    ensures
        match content_type {
            Some(header) => match declared_boundary(header@) {
                Some(declared) => session matches Ok(s) && s@ == opened(dir@, declared),
                None => session matches Err(e) && e == ServiceError::MalformedRequest,
            },
            None => session matches Err(e) && e == ServiceError::MalformedRequest,
        },
{
    match content_type {
        Some(header) => match parse_boundary(header) {
            Ok(declared) => UploadSession::open(dir, Some(declared)),
            Err(_) => UploadSession::open(dir, None),
        },
        None => UploadSession::open(dir, None),
    }
}

} // verus!
