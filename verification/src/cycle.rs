//! One cycle: every display's capture is encoded, archived and turned into an event on its
//! own, so that the failure of one display leaves the others untouched.

use vstd::prelude::*;
use crate::archive::{archive_path, archive_path_of, ArchiveJob, ArchiveJobView};
use crate::clock::{local_now_text, stamp_pattern, stamp_shaped, utc_now, Timestamp};
use crate::error::{PipelineError, PipelineErrorView};
use crate::event::{build, event_of, TelemetryEvent, TelemetryEventView};
use crate::frame::{encodable, encode, encoded, EncodedFrame, EncodedFrameView, RawFrame};

verus! {

/// A display's frame with the times it was taken at: the instant, for the event, and the
/// local time to the second, for the archive name.
#[derive(Clone, Debug, PartialEq, Eq)]
pub struct Capture {
    pub frame: RawFrame,
    pub captured_at: Timestamp,
    pub stamp: String,
}

/// What the capture stage hands over for one display. The position of an outcome among the
/// outcomes of one enumeration is the display's index.
#[derive(Clone, Debug, PartialEq, Eq)]
pub enum CaptureOutcome {
    Captured(Capture),
    Failed { detail: String },
}

/// An encoded frame with the local time that names it in the archive.
#[derive(Clone, Debug, PartialEq, Eq)]
pub struct StampedFrame {
    pub frame: EncodedFrame,
    pub stamp: String,
}

/// What contracts say of a `StampedFrame`.
pub ghost struct StampedFrameView {
    pub frame: EncodedFrameView,
    pub stamp: Seq<char>,
}

impl View for StampedFrame {
    type V = StampedFrameView;

    open spec fn view(&self) -> StampedFrameView {
        StampedFrameView { frame: self.frame@, stamp: self.stamp@ }
    }
}

/// Stamps a frame that was just read from a display with the current time: the instant in
/// UTC, and the local time to the second. Which time that is depends on the clock; the
/// instant never lies before 1970, and the stamp always has the shape of a date and a time.
pub fn record_capture(frame: RawFrame) -> (capture: Capture)
    ensures
        capture.frame == frame,
        capture.captured_at.secs >= 0,
        capture.captured_at.nanos < 1_000_000_000,
        stamp_shaped(capture.stamp@),
{
    proof {
        reveal_strlit("%Y-%m-%d_%H-%M-%S");
        assert("%Y-%m-%d_%H-%M-%S"@ =~= stamp_pattern());
    }
    let captured_at = utc_now();
    let stamp = local_now_text("%Y-%m-%d_%H-%M-%S");
    Capture { frame, captured_at, stamp }
}

/// What becomes of display `index` in a cycle: its stamped, encoded frame, or the failure of
/// the stage that stopped it.
pub open spec fn display_result(outcome: CaptureOutcome, index: nat) -> Result<
    StampedFrameView,
    PipelineErrorView,
> {
    match outcome {
        CaptureOutcome::Captured(capture) => match encoded(
            capture.frame,
            index,
            capture.captured_at,
        ) {
            Ok(frame) => Ok(StampedFrameView { frame, stamp: capture.stamp@ }),
            Err(error) => Err(error),
        },
        CaptureOutcome::Failed { detail } => Err(
            PipelineErrorView::Capture { display: index, detail: detail@ },
        ),
    }
}

/// Whether a display's capture can be taken all the way to an event: the display was read,
/// and its frame is one that the encoder takes.
pub open spec fn ready(outcome: CaptureOutcome) -> bool {
    match outcome {
        CaptureOutcome::Captured(capture) => capture.frame.well_formed() && encodable(
            capture.frame.width,
            capture.frame.height,
        ),
        CaptureOutcome::Failed { .. } => false,
    }
}

/// The number of displays whose capture can be taken all the way to an event.
pub open spec fn count_ready(outcomes: Seq<CaptureOutcome>) -> nat
    decreases outcomes.len(),
{
    if outcomes.len() == 0 {
        0
    } else if ready(outcomes.last()) {
        count_ready(outcomes.drop_last()) + 1
    } else {
        count_ready(outcomes.drop_last())
    }
}

/// The frames of the displays that were captured and encoded, in the order of the displays.
pub open spec fn encoded_frames(outcomes: Seq<CaptureOutcome>) -> Seq<StampedFrameView>
    decreases outcomes.len(),
{
    if outcomes.len() == 0 {
        Seq::empty()
    } else {
        let before = encoded_frames(outcomes.drop_last());
        match display_result(outcomes.last(), (outcomes.len() - 1) as nat) {
            Ok(frame) => before.push(frame),
            Err(_) => before,
        }
    }
}

/// The failures of the displays that were not captured or not encoded, in the order of the
/// displays.
pub open spec fn stage_failures(outcomes: Seq<CaptureOutcome>) -> Seq<PipelineErrorView>
    decreases outcomes.len(),
{
    if outcomes.len() == 0 {
        Seq::empty()
    } else {
        let before = stage_failures(outcomes.drop_last());
        match display_result(outcomes.last(), (outcomes.len() - 1) as nat) {
            Ok(_) => before,
            Err(error) => before.push(error),
        }
    }
}

/// The views of a run of stamped frames.
pub open spec fn frame_views(frames: Seq<StampedFrame>) -> Seq<StampedFrameView> {
    frames.map_values(|frame: StampedFrame| frame@)
}

/// The views of a run of failures.
pub open spec fn failure_views(failures: Seq<PipelineError>) -> Seq<PipelineErrorView> {
    failures.map_values(|failure: PipelineError| failure@)
}

/// One display's result as contracts see it.
pub open spec fn display_view(result: Result<StampedFrame, PipelineError>) -> Result<
    StampedFrameView,
    PipelineErrorView,
> {
    match result {
        Ok(frame) => Ok(frame@),
        Err(error) => Err(error@),
    }
}

/// Takes one display from its capture outcome to its encoded frame.
fn process_display(outcome: &CaptureOutcome, index: usize) -> (result: Result<
    StampedFrame,
    PipelineError,
>)
    ensures
        display_view(result) == display_result(*outcome, index as nat),
        result is Ok <==> ready(*outcome),
        result matches Ok(stamped) ==> stamped.frame.blob@.len() > 0,
{
    match outcome {
        CaptureOutcome::Captured(capture) => {
            match encode(&capture.frame, index, capture.captured_at) {
                Ok(frame) => Ok(StampedFrame { frame, stamp: capture.stamp.clone() }),
                Err(error) => Err(error),
            }
        },
        CaptureOutcome::Failed { detail } => Err(
            PipelineError::Capture { display: index, detail: detail.clone() },
        ),
    }
}

/// Encodes every captured display on its own. A display that was read, with a frame that
/// the encoder takes, leaves its encoded frame. Any other display leaves a failure and
/// nothing else: the others go on.
pub fn encode_captures(outcomes: &Vec<CaptureOutcome>) -> (result: (
    Vec<StampedFrame>,
    Vec<PipelineError>,
))
    ensures
        frame_views(result.0@) == encoded_frames(outcomes@),
        failure_views(result.1@) == stage_failures(outcomes@),
        result.0@.len() == count_ready(outcomes@),
        result.1@.len() == outcomes@.len() - count_ready(outcomes@),
        forall|k: int| 0 <= k < result.0@.len() ==> (#[trigger] result.0@[k]).frame.blob@.len() > 0,
{
    let mut frames: Vec<StampedFrame> = Vec::new();
    let mut failures: Vec<PipelineError> = Vec::new();
    let mut index: usize = 0;
    assert(outcomes@.take(0) =~= Seq::empty());
    assert(frame_views(frames@) =~= Seq::empty());
    assert(failure_views(failures@) =~= Seq::empty());
    while index < outcomes.len()
        invariant
            index <= outcomes.len(),
            frame_views(frames@) == encoded_frames(outcomes@.take(index as int)),
            failure_views(failures@) == stage_failures(outcomes@.take(index as int)),
            frames@.len() == count_ready(outcomes@.take(index as int)),
            failures@.len() == index - count_ready(outcomes@.take(index as int)),
            forall|k: int| 0 <= k < frames@.len() ==> (#[trigger] frames@[k]).frame.blob@.len() > 0,
        decreases outcomes.len() - index,
    {
        let ghost seen = outcomes@.take(index as int);
        let ghost next = outcomes@.take(index + 1);
        assert(next.drop_last() =~= seen);
        assert(next.last() == outcomes@[index as int]);
        let ghost old_frames = frames@;
        let ghost old_failures = failures@;
        match process_display(&outcomes[index], index) {
            Ok(frame) => {
                frames.push(frame);
                assert(frame_views(frames@) =~= frame_views(old_frames).push(frame@));
            },
            Err(error) => {
                failures.push(error);
                assert(failure_views(failures@) =~= failure_views(old_failures).push(error@));
            },
        }
        index = index + 1;
    }
    assert(outcomes@.take(index as int) =~= outcomes@);
    (frames, failures)
}

/// The archive job of a stamped frame: its blob, under the path that its stamp and display
/// give.
pub open spec fn job_of(frame: StampedFrameView) -> ArchiveJobView {
    ArchiveJobView {
        path: archive_path_of(frame.stamp, frame.frame.display),
        blob: frame.frame.blob,
        display: frame.frame.display,
    }
}

/// The event of a stamped frame: the one built from its encoded frame for its display.
pub open spec fn stamped_event_of(frame: StampedFrameView) -> TelemetryEventView {
    event_of(frame.frame, frame.frame.display)
}

/// The views of a run of archive jobs.
pub open spec fn job_views(jobs: Seq<ArchiveJob>) -> Seq<ArchiveJobView> {
    jobs.map_values(|job: ArchiveJob| job@)
}

/// The views of a run of events.
pub open spec fn event_views(events: Seq<TelemetryEvent>) -> Seq<TelemetryEventView> {
    events.map_values(|event: TelemetryEvent| event@)
}

/// Plans the archive: one file per encoded frame, in the order of the frames, each under the
/// name that its stamp and display give.
pub fn plan_archive(frames: &Vec<StampedFrame>) -> (jobs: Vec<ArchiveJob>)
    ensures
        jobs@.len() == frames@.len(),
        job_views(jobs@) == frame_views(frames@).map_values(|frame: StampedFrameView| job_of(frame)),
{
    let mut jobs: Vec<ArchiveJob> = Vec::new();
    let mut index: usize = 0;
    while index < frames.len()
        invariant
            index <= frames.len(),
            jobs@.len() == index,
            forall|k: int| 0 <= k < index ==> (#[trigger] jobs@[k])@ == job_of(frames@[k]@),
        decreases frames.len() - index,
    {
        let stamped = &frames[index];
        let job = ArchiveJob {
            path: archive_path(stamped.stamp.as_str(), stamped.frame.display),
            blob: stamped.frame.blob.clone(),
            display: stamped.frame.display,
        };
        assert(job.blob@ =~= stamped.frame.blob@);
        jobs.push(job);
        index = index + 1;
    }
    assert(job_views(jobs@) =~= frame_views(frames@).map_values(
        |frame: StampedFrameView| job_of(frame),
    ));
    jobs
}

/// Builds the events of a cycle: one per encoded frame, in the order of the frames.
pub fn screenshots_to_events(frames: Vec<StampedFrame>) -> (events: Vec<TelemetryEvent>)
    ensures
        events@.len() == frames@.len(),
        event_views(events@) == frame_views(frames@).map_values(
            |frame: StampedFrameView| stamped_event_of(frame),
        ),
{
    let mut events: Vec<TelemetryEvent> = Vec::new();
    let ghost all = frames@;
    for stamped in it: frames.into_iter()
        invariant
            it.seq() == all,
            events@.len() == it.index(),
            forall|k: int|
                0 <= k < it.index() ==> (#[trigger] events@[k])@ == stamped_event_of(all[k]@),
    {
        let display: usize = stamped.frame.display;
        events.push(build(stamped.frame, display));
    }
    assert(event_views(events@) =~= frame_views(all).map_values(
        |frame: StampedFrameView| stamped_event_of(frame),
    ));
    events
}

/// What one cycle leaves behind: the files to archive, the events to deliver, and the
/// failures to report.
#[derive(Clone, Debug, PartialEq, Eq)]
pub struct CycleReport {
    pub archives: Vec<ArchiveJob>,
    pub events: Vec<TelemetryEvent>,
    pub failures: Vec<PipelineError>,
}

/// What contracts say of a `CycleReport`.
pub ghost struct CycleReportView {
    pub archives: Seq<ArchiveJobView>,
    pub events: Seq<TelemetryEventView>,
    pub failures: Seq<PipelineErrorView>,
}

impl View for CycleReport {
    type V = CycleReportView;

    open spec fn view(&self) -> CycleReportView {
        CycleReportView {
            archives: job_views(self.archives@),
            events: event_views(self.events@),
            failures: failure_views(self.failures@),
        }
    }
}

/// The report of a cycle. Where the displays could be enumerated, every display that was
/// captured and encoded gives one archive job and one event, and every other display one
/// failure. Where they could not, the cycle has that one failure and nothing else.
pub open spec fn cycle_report(enumeration: Result<Vec<CaptureOutcome>, String>) -> CycleReportView {
    match enumeration {
        Ok(outcomes) => CycleReportView {
            archives: encoded_frames(outcomes@).map_values(
                |frame: StampedFrameView| job_of(frame),
            ),
            events: encoded_frames(outcomes@).map_values(
                |frame: StampedFrameView| stamped_event_of(frame),
            ),
            failures: stage_failures(outcomes@),
        },
        Err(detail) => CycleReportView {
            archives: Seq::empty(),
            events: Seq::empty(),
            failures: seq![PipelineErrorView::Enumeration { detail: detail@ }],
        },
    }
}

/// Runs the stages of one cycle that follow enumeration and capture: encoding, the plan of
/// the archive, and the events. Nothing is written and nothing is sent here.
///
/// Every display that was read, with a frame that the encoder takes, gets one archive job
/// and one event; every event carries its frame's bytes.
pub fn run_cycle(enumeration: &Result<Vec<CaptureOutcome>, String>) -> (report: CycleReport)
    ensures
        report@ == cycle_report(*enumeration),
        enumeration matches Ok(outcomes) ==> report.archives@.len() == count_ready(outcomes@)
            && report.events@.len() == count_ready(outcomes@),
        forall|k: int|
            0 <= k < report@.events.len() ==> (#[trigger] report@.events[k]).carries_blob(),
        forall|k: int|
            0 <= k < report@.events.len() ==> (#[trigger] report@.events[k]).well_formed(),
{
    match enumeration {
        Ok(outcomes) => {
            let (frames, failures) = encode_captures(outcomes);
            let archives = plan_archive(&frames);
            let ghost stamped = frame_views(frames@);
            let events = screenshots_to_events(frames);
            assert forall|k: int| 0 <= k < event_views(events@).len() implies (
            #[trigger] event_views(events@)[k]).carries_blob() && event_views(
                events@,
            )[k].well_formed() by {
                assert(event_views(events@)[k] == stamped_event_of(stamped[k]));
            }
            CycleReport { archives, events, failures }
        },
        Err(detail) => {
            let mut failures: Vec<PipelineError> = Vec::new();
            failures.push(PipelineError::Enumeration { detail: detail.clone() });
            let report = CycleReport { archives: Vec::new(), events: Vec::new(), failures };
            assert(report@.archives =~= Seq::empty());
            assert(report@.events =~= Seq::empty());
            assert(report@.failures =~= seq![PipelineErrorView::Enumeration { detail: detail@ }]);
            report
        },
    }
}

/// The number of displays for which both capture and encoding succeeded.
pub open spec fn count_encoded(outcomes: Seq<CaptureOutcome>) -> nat
    decreases outcomes.len(),
{
    if outcomes.len() == 0 {
        0
    } else {
        let before = count_encoded(outcomes.drop_last());
        if display_result(outcomes.last(), (outcomes.len() - 1) as nat) is Ok {
            before + 1
        } else {
            before
        }
    }
}

/// A cycle plans exactly as many archive files, and builds exactly as many events, as there
/// are displays for which both capture and encoding succeeded; every other display leaves
/// exactly one failure.
pub proof fn lemma_one_archive_per_encoded_display(outcomes: Vec<CaptureOutcome>)
    ensures
        cycle_report(Ok(outcomes)).archives.len() == count_encoded(outcomes@),
        cycle_report(Ok(outcomes)).events.len() == count_encoded(outcomes@),
        cycle_report(Ok(outcomes)).failures.len() == outcomes@.len() - count_encoded(outcomes@),
{
    lemma_encoded_count(outcomes@);
}

/// The frames and the failures of a cycle split its displays between them.
pub proof fn lemma_encoded_count(outcomes: Seq<CaptureOutcome>)
    ensures
        encoded_frames(outcomes).len() == count_encoded(outcomes),
        stage_failures(outcomes).len() == outcomes.len() - count_encoded(outcomes),
    decreases outcomes.len(),
{
    if outcomes.len() > 0 {
        lemma_encoded_count(outcomes.drop_last());
    }
}

/// The frame of a display that was captured and encoded is among the frames of its cycle,
/// whatever happened to the other displays: it stands after the frames of the displays
/// before it that succeeded.
pub proof fn lemma_frame_survives(outcomes: Seq<CaptureOutcome>, display: int)
    requires
        0 <= display < outcomes.len(),
    ensures
        display_result(outcomes[display], display as nat) is Ok ==> {
            let at = count_encoded(outcomes.take(display)) as int;
            &&& at < encoded_frames(outcomes).len()
            &&& encoded_frames(outcomes)[at] == display_result(
                outcomes[display],
                display as nat,
            )->Ok_0
        },
    decreases outcomes.len(),
{
    let shorter = outcomes.drop_last();
    if display == outcomes.len() - 1 {
        assert(outcomes.take(display) =~= shorter);
        lemma_encoded_count(shorter);
    } else {
        assert(shorter.take(display) =~= outcomes.take(display));
        assert(shorter[display] == outcomes[display]);
        lemma_frame_survives(shorter, display);
    }
}

/// A failure on one display does not keep the others from being archived and delivered:
/// every display that was captured and encoded has its archive job and its event in the
/// report, with its own index.
pub proof fn lemma_failure_isolation(outcomes: Vec<CaptureOutcome>, display: int)
    requires
        0 <= display < outcomes@.len(),
    ensures
        display_result(outcomes@[display], display as nat) is Ok ==> ({
            let report = cycle_report(Ok(outcomes));
            let frame = display_result(outcomes@[display], display as nat)->Ok_0;
            let at = count_encoded(outcomes@.take(display)) as int;
            &&& at < report.archives.len()
            &&& at < report.events.len()
            &&& report.archives[at] == job_of(frame)
            &&& report.events[at] == stamped_event_of(frame)
            &&& report.events[at].display == display
            &&& report.events[at].blob_data == Some(frame.frame.blob)
        }),
{
    lemma_frame_survives(outcomes@, display);
}

/// Every event of a cycle carries a payload and names its encoding.
pub proof fn lemma_cycle_events_carry_blobs(outcomes: Vec<CaptureOutcome>)
    ensures
        forall|at: int|
            0 <= at < cycle_report(Ok(outcomes)).events.len() ==> {
                let event = #[trigger] cycle_report(Ok(outcomes)).events[at];
                &&& event.blob_data is Some
                &&& event.format.len() > 0
                &&& event.well_formed()
            },
{
}

} // verus!
