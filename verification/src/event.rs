//! Telemetry events: the unit of delivery, built from one encoded frame each.

use vstd::prelude::*;
use crate::clock::Timestamp;
use crate::frame::{EncodedFrame, EncodedFrameView};

verus! {

/// The metadata of an event: the encoding of its payload and the display it shows.
#[derive(Clone, Debug, PartialEq, Eq)]
pub struct EventData {
    pub format: String,
    pub display: u64,
}

/// One sample of one display, ready for delivery.
#[derive(Clone, Debug, PartialEq, Eq)]
pub struct TelemetryEvent {
    /// Unset until the collection service assigns one.
    pub id: Option<i64>,
    /// The instant of capture.
    pub timestamp: Timestamp,
    /// How long the event lasted, in nanoseconds: zero, since a frame is a sample.
    pub duration_nanos: i64,
    pub data: EventData,
    /// The encoded frame.
    pub blob_data: Option<Vec<u8>>,
}

/// What contracts say of a `TelemetryEvent`.
pub ghost struct TelemetryEventView {
    pub id: Option<i64>,
    pub timestamp: Timestamp,
    pub duration_nanos: int,
    pub format: Seq<char>,
    pub display: nat,
    pub blob_data: Option<Seq<u8>>,
}

impl View for TelemetryEvent {
    type V = TelemetryEventView;

    open spec fn view(&self) -> TelemetryEventView {
        TelemetryEventView {
            id: self.id,
            timestamp: self.timestamp,
            duration_nanos: self.duration_nanos as int,
            format: self.data.format@,
            display: self.data.display as nat,
            blob_data: match self.blob_data {
                Some(blob) => Some(blob@),
                None => None,
            },
        }
    }
}

impl TelemetryEventView {
    /// A payload never travels without the name of its encoding.
    pub open spec fn well_formed(self) -> bool {
        self.blob_data is Some ==> self.format.len() > 0
    }

    /// The event has a payload, and the payload has bytes.
    pub open spec fn carries_blob(self) -> bool {
        match self.blob_data {
            Some(blob) => blob.len() > 0,
            None => false,
        }
    }
}

/// The name of the one encoding that this producer uses.
pub open spec fn format_tag() -> Seq<char> {
    seq!['w', 'e', 'b', 'p']
}

/// The event that stands for an encoded frame of display `index`.
pub open spec fn event_of(frame: EncodedFrameView, index: nat) -> TelemetryEventView {
    TelemetryEventView {
        id: None,
        timestamp: frame.captured_at,
        duration_nanos: 0,
        format: format_tag(),
        display: index,
        blob_data: Some(frame.blob),
    }
}

/// Every built event carries its frame's blob and names the encoding of it.
pub proof fn lemma_built_event_keeps_blob(frame: EncodedFrameView, index: nat)
    ensures
        event_of(frame, index).blob_data == Some(frame.blob),
        event_of(frame, index).format.len() > 0,
        event_of(frame, index).well_formed(),
{
}

/// Wraps an encoded frame of display `index` into its event: no identifier, the instant of
/// capture, no duration, the format tag and the display as metadata, the blob as payload.
pub fn build(frame: EncodedFrame, index: usize) -> (event: TelemetryEvent)
    ensures
        event@ == event_of(frame@, index as nat),
{
    proof {
        reveal_strlit("webp");
        assert("webp"@ =~= format_tag());
    }
    TelemetryEvent {
        id: None,
        timestamp: frame.captured_at,
        duration_nanos: 0,
        data: EventData { format: String::from_str("webp"), display: index as u64 },
        blob_data: Some(frame.blob),
    }
}

} // verus!
