//! Upload lifecycle events and the text that observers receive for them.

use vstd::prelude::*;
use crate::decimal::{append_decimal, decimal};

verus! {

/// The stage of an upload that an event reports.
#[derive(Debug, Clone, Copy, PartialEq, Eq, Structural)]
pub enum UploadStatus {
    Started,
    Progress,
    Done,
}

/// One step in the life of an uploaded file. A byte count belongs to a
/// progress report and to nothing else, so only that variant has one.
#[derive(Debug, PartialEq, Eq)]
pub enum UploadEvent {
    /// The file was given a place and its bytes are about to be written.
    Started { file_name: String },
    /// `bytes_written` bytes of the file have been written so far.
    Progress { file_name: String, bytes_written: u64 },
    /// All bytes of the file have been written.
    Done { file_name: String },
}

/// An `UploadEvent` with its name as plain text.
pub enum UploadEventView {
    Started { file_name: Seq<char> },
    Progress { file_name: Seq<char>, bytes_written: u64 },
    Done { file_name: Seq<char> },
}

impl View for UploadEvent {
    type V = UploadEventView;

    open spec fn view(&self) -> UploadEventView {
        match self {
            UploadEvent::Started { file_name } => UploadEventView::Started {
                file_name: file_name@,
            },
            UploadEvent::Progress { file_name, bytes_written } => UploadEventView::Progress {
                file_name: file_name@,
                bytes_written: *bytes_written,
            },
            UploadEvent::Done { file_name } => UploadEventView::Done { file_name: file_name@ },
        }
    }
}

impl UploadEventView {
    /// The name of the file that the event is about.
    pub open spec fn file_name(self) -> Seq<char> {
        match self {
            UploadEventView::Started { file_name } => file_name,
            UploadEventView::Progress { file_name, .. } => file_name,
            UploadEventView::Done { file_name } => file_name,
        }
    }

    /// The stage that the event reports.
    pub open spec fn status(self) -> UploadStatus {
        match self {
            UploadEventView::Started { .. } => UploadStatus::Started,
            UploadEventView::Progress { .. } => UploadStatus::Progress,
            UploadEventView::Done { .. } => UploadStatus::Done,
        }
    }

    /// The byte count, which only a progress report has.
    pub open spec fn bytes_written(self) -> Option<u64> {
        match self {
            UploadEventView::Progress { bytes_written, .. } => Some(bytes_written),
            _ => None,
        }
    }
}

/// The record that observers receive for `event`: one line of JSON-like
/// text. The file name is written as it is, without escaping.
pub open spec fn record_text(event: UploadEventView) -> Seq<char> {
    match event {
        UploadEventView::Started { file_name } => "{\"file\":\""@ + file_name
            + "\",\"status\":\"start\"}"@,
        UploadEventView::Progress { file_name, bytes_written } => "{\"file\":\""@ + file_name
            + "\",\"status\":\"progress\",\"bytes\":"@ + decimal(bytes_written as nat) + "}"@,
        UploadEventView::Done { file_name } => "{\"file\":\""@ + file_name
            + "\",\"status\":\"done\"}"@,
    }
}

/// The frame that carries `record` on an event stream: `data: `, the record,
/// and an empty line.
pub open spec fn frame_text(record: Seq<char>) -> Seq<char> {
    "data: "@ + record + "\n\n"@
}

impl UploadEvent {
    /// The name of the file that the event is about.
    pub fn file_name(&self) -> (name: &String)
        ensures
            name@ == self@.file_name(),
    {
        match self {
            UploadEvent::Started { file_name } => file_name,
            UploadEvent::Progress { file_name, .. } => file_name,
            UploadEvent::Done { file_name } => file_name,
        }
    }

    /// The stage that the event reports.
    pub fn status(&self) -> (status: UploadStatus)
        ensures
            status == self@.status(),
    {
        match self {
            UploadEvent::Started { .. } => UploadStatus::Started,
            UploadEvent::Progress { .. } => UploadStatus::Progress,
            UploadEvent::Done { .. } => UploadStatus::Done,
        }
    }

    /// The byte count: present for a progress report, absent otherwise.
    pub fn bytes_written(&self) -> (bytes: Option<u64>)
        ensures
            bytes == self@.bytes_written(),
            bytes is Some <==> self@.status() == UploadStatus::Progress,
    {
        match self {
            UploadEvent::Progress { bytes_written, .. } => Some(*bytes_written),
            _ => None,
        }
    }

    /// The record that observers receive for this event.
    pub fn record(&self) -> (text: String)
        ensures
            text@ == record_text(self@),
    {
        let mut text = "{\"file\":\"".to_owned();
        match self {
            UploadEvent::Started { file_name } => {
                text.append(file_name.as_str());
                text.append("\",\"status\":\"start\"}");
            },
            UploadEvent::Progress { file_name, bytes_written } => {
                text.append(file_name.as_str());
                text.append("\",\"status\":\"progress\",\"bytes\":");
                append_decimal(&mut text, *bytes_written);
                text.append("}");
            },
            UploadEvent::Done { file_name } => {
                text.append(file_name.as_str());
                text.append("\",\"status\":\"done\"}");
            },
        }
        text
    }
}

/// The frame that carries `record` on an event stream.
pub fn frame(record: &str) -> (text: String)
    ensures
        text@ == frame_text(record@),
{
    let mut text = "data: ".to_owned();
    text.append(record);
    text.append("\n\n");
    text
}

/// What a subscription hands to the stream of one observer.
#[derive(Debug, PartialEq, Eq)]
pub enum Delivery {
    /// The record of the next event.
    Record(String),
    /// The observer fell behind and this many of its oldest undelivered
    /// events were dropped.
    Lagged(u64),
}

/// What the stream sends for `delivery`: the frame of a record, and nothing
/// for a gap; the stream goes on behind either.
pub fn forward(delivery: &Delivery) -> (sent: Option<String>)
    ensures
        match *delivery {
            Delivery::Record(record) => sent matches Some(text) && text@ == frame_text(record@),
            Delivery::Lagged(_) => sent is None,
        },
{
    match delivery {
        Delivery::Record(record) => Some(frame(record.as_str())),
        Delivery::Lagged(_) => None,
    }
}

} // verus!
