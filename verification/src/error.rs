//! What can go wrong in one cycle, stage by stage. No failure ends the process: each is
//! caught where it happens, reported, and the cycle goes on with what is left.

use vstd::prelude::*;
use crate::decimal::{decimal, decimal_digits};

verus! {

/// A failure of one stage of the pipeline.
#[derive(Clone, Debug, PartialEq, Eq)]
pub enum PipelineError {
    /// The display subsystem could not be queried.
    Enumeration { detail: String },
    /// One display could not be read.
    Capture { display: usize, detail: String },
    /// One display's frame could not be encoded.
    Encoding { display: usize, detail: String },
    /// One display's encoded frame could not be written to the archive.
    Storage { display: usize, detail: String },
    /// The batch did not reach the collection service.
    Transport { detail: String },
    /// The collection service answered with a status outside the successful ones.
    Remote { status: u16 },
}

/// What contracts say of a `PipelineError`.
pub ghost enum PipelineErrorView {
    Enumeration { detail: Seq<char> },
    Capture { display: nat, detail: Seq<char> },
    Encoding { display: nat, detail: Seq<char> },
    Storage { display: nat, detail: Seq<char> },
    Transport { detail: Seq<char> },
    Remote { status: u16 },
}

impl View for PipelineError {
    type V = PipelineErrorView;

    open spec fn view(&self) -> PipelineErrorView {
        match *self {
            PipelineError::Enumeration { detail } => PipelineErrorView::Enumeration {
                detail: detail@,
            },
            PipelineError::Capture { display, detail } => PipelineErrorView::Capture {
                display: display as nat,
                detail: detail@,
            },
            PipelineError::Encoding { display, detail } => PipelineErrorView::Encoding {
                display: display as nat,
                detail: detail@,
            },
            PipelineError::Storage { display, detail } => PipelineErrorView::Storage {
                display: display as nat,
                detail: detail@,
            },
            PipelineError::Transport { detail } => PipelineErrorView::Transport {
                detail: detail@,
            },
            PipelineError::Remote { status } => PipelineErrorView::Remote { status },
        }
    }
}

/// The text that names a display in a diagnostic line.
pub open spec fn display_label(display: nat) -> Seq<char> {
    "display "@ + decimal_digits(display) + ": "@
}

/// The diagnostic line that reports a failure.
pub open spec fn message_of(error: PipelineErrorView) -> Seq<char> {
    match error {
        PipelineErrorView::Enumeration { detail } => "Failed to get screenshots: "@ + detail,
        PipelineErrorView::Capture { display, detail } => "Failed to get screenshots: "@
            + display_label(display) + detail,
        PipelineErrorView::Encoding { display, detail } =>
            "Failed to convert screenshots to events: "@ + display_label(display) + detail,
        PipelineErrorView::Storage { display, detail } => "Failed to save screenshots: "@
            + display_label(display) + detail,
        PipelineErrorView::Transport { detail } => "Failed to send events to server: "@ + detail,
        PipelineErrorView::Remote { status } => "Failed to send events to server: status "@
            + decimal_digits(status as nat),
    }
}

/// Starts a diagnostic line that concerns one display.
fn labelled(prefix: &str, display: usize, detail: &String) -> (line: String)
    ensures
        line@ == prefix@ + display_label(display as nat) + detail@,
{
    let mut line = String::from_str(prefix);
    line.append("display ");
    line.append(decimal(display as u64).as_str());
    line.append(": ");
    line.append(detail.as_str());
    assert(line@ =~= prefix@ + display_label(display as nat) + detail@);
    line
}

impl PipelineError {
    /// The diagnostic line that reports this failure on the console.
    pub fn message(&self) -> (line: String)
        ensures
            line@ == message_of(self@),
    {
        match self {
            PipelineError::Enumeration { detail } => {
                String::from_str("Failed to get screenshots: ").concat(detail.as_str())
            },
            PipelineError::Capture { display, detail } => {
                labelled("Failed to get screenshots: ", *display, detail)
            },
            PipelineError::Encoding { display, detail } => {
                labelled("Failed to convert screenshots to events: ", *display, detail)
            },
            PipelineError::Storage { display, detail } => {
                labelled("Failed to save screenshots: ", *display, detail)
            },
            PipelineError::Transport { detail } => {
                String::from_str("Failed to send events to server: ").concat(detail.as_str())
            },
            PipelineError::Remote { status } => {
                String::from_str("Failed to send events to server: status ").concat(
                    decimal(*status as u64).as_str(),
                )
            },
        }
    }
}

} // verus!
