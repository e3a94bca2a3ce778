//! The queue of pending game reports and the retry protocol that drains it.
//!
//! Reports wait in the order in which they were added. The report at the
//! head is the only one that is ever sent. Each step of the drain takes what
//! came back for one send of the head and decides: the report was accepted
//! and leaves the queue; it failed and stays at the head to be sent again
//! after a pause; or it failed for the last time and is given up.

use std::collections::VecDeque;
use vstd::prelude::*;
use crate::game_reporter::graphql::{sent_view, ReportSendErrorKind, SendFailure};
use crate::game_reporter::requests::{
    outcome_view, read_report_outcome, report_outcome, report_request_body, report_request_text,
};
use crate::game_reporter::types::{GameReport, OnlinePlayMode};
use crate::osd::{Color, Duration, OsdMessage};

verus! {

/// How many times a report should attempt to send.
pub const MAX_REPORT_ATTEMPTS: i32 = 5;

/// What the player is told when a ranked report is given up.
pub const REPORT_FAILED_NOTICE: &'static str =
    "Failed to send game report. If you get this often, visit Slippi Discord for help.";

/// Events that are dispatched into the processing thread.
#[derive(Copy, Clone, Debug, PartialEq, Eq, Structural)]
pub enum ProcessingEvent {
    ReportAvailable,
    Shutdown,
}

/// Wraps errors that can occur during report sending.
#[derive(Debug)]
pub struct ReportSendError {
    pub is_last_attempt: bool,
    /// How long to pause before the queue is looked at again, in milliseconds.
    pub sleep_ms: u64,
    pub kind: ReportSendErrorKind,
}

/// The replay of a report that was accepted, and where to upload it.
#[derive(Debug)]
pub struct ReplayUpload {
    pub data: Vec<u8>,
    pub upload_url: String,
}

/// What one step of the drain did with the report at the head of the queue.
#[derive(Debug)]
pub enum ReportStep {
    /// The server accepted the report, and it has left the queue. Where the
    /// server named a target, the replay is to be uploaded there.
    Sent { upload: Option<ReplayUpload> },
    /// The send failed and the report stays at the head of the queue. The
    /// next step is due after the pause that the error names.
    Retry { error: ReportSendError },
    /// The send failed for the last time and the report has left the queue.
    /// Where the match was ranked, the player is to be told.
    Dropped { error: ReportSendError, notice: Option<OsdMessage> },
}

/// How many sends a report gets: one while shutting down, else
/// `MAX_REPORT_ATTEMPTS`.
pub open spec fn max_attempts(event: ProcessingEvent) -> int {
    match event {
        ProcessingEvent::Shutdown => 1,
        ProcessingEvent::ReportAvailable => MAX_REPORT_ATTEMPTS as int,
    }
}

/// Whether the send that brings a report's counter to `attempts` is its last.
pub open spec fn is_last_attempt(attempts: int, event: ProcessingEvent) -> bool {
    attempts >= max_attempts(event)
}

/// The pause after a failed send that brought the counter to `attempts`, in
/// milliseconds: none after the last send, else a tenth of a second for each
/// send so far.
pub open spec fn backoff_ms(attempts: int, event: ProcessingEvent) -> int {
    if is_last_attempt(attempts, event) {
        0
    } else {
        attempts * 100
    }
}

/// The report with one more send counted.
pub open spec fn bumped(report: GameReport) -> GameReport {
    GameReport { attempts: (report.attempts + 1) as i32, ..report }
}

/// Whether a step takes the head off the queue: after a send that succeeded,
/// and after the last send.
pub open spec fn step_removes_head(head: GameReport, event: ProcessingEvent, failed: bool) -> bool {
    !failed || is_last_attempt(head.attempts + 1, event)
}

/// The queue after one step on the non-empty queue `q`.
pub open spec fn queue_after(q: Seq<GameReport>, event: ProcessingEvent, failed: bool) -> Seq<
    GameReport,
>
    recommends
        q.len() > 0,
{
    if step_removes_head(q[0], event, failed) {
        q.drop_first()
    } else {
        q.update(0, bumped(q[0]))
    }
}

/// Every counter is one that can be counted up: it is not negative and is
/// below the largest number that it can hold.
pub open spec fn countable(q: Seq<GameReport>) -> bool {
    forall|i: int| 0 <= i < q.len() ==> 0 <= (#[trigger] q[i]).attempts < i32::MAX
}

/// A send error as contracts speak of it.
pub struct SendErrorView {
    pub is_last_attempt: bool,
    pub sleep_ms: int,
    pub failure: SendFailure,
}

impl View for ReportSendError {
    type V = SendErrorView;

    open spec fn view(&self) -> SendErrorView {
        SendErrorView {
            is_last_attempt: self.is_last_attempt,
            sleep_ms: self.sleep_ms as int,
            failure: self.kind@,
        }
    }
}

/// A step of the drain as contracts speak of it.
pub enum StepView {
    Sent { upload: Option<(Seq<u8>, Seq<char>)> },
    Retry { error: SendErrorView },
    Dropped { error: SendErrorView, notice: Option<(Color, Duration, Seq<char>)> },
}

impl View for ReportStep {
    type V = StepView;

    open spec fn view(&self) -> StepView {
        match self {
            ReportStep::Sent { upload } => StepView::Sent {
                upload: match upload {
                    Some(u) => Some((u.data@, u.upload_url@)),
                    None => None,
                },
            },
            ReportStep::Retry { error } => StepView::Retry { error: error@ },
            ReportStep::Dropped { error, notice } => StepView::Dropped {
                error: error@,
                notice: match notice {
                    Some(message) => Some((message.color, message.duration, message.text@)),
                    None => None,
                },
            },
        }
    }
}

/// The step that is taken on a queue with the head `head`, given the outcome
/// of the send.
///
/// A report that was accepted hands its replay to the upload where the
/// server named a target. A report that failed is sent again after the
/// pause, unless this send was its last; only a ranked report that is given
/// up is made known to the player.
pub open spec fn step_for(
    head: GameReport,
    event: ProcessingEvent,
    outcome: Result<Option<Seq<char>>, SendFailure>,
) -> StepView {
    let attempts = head.attempts + 1;
    match outcome {
        Ok(target) => StepView::Sent {
            upload: match target {
                Some(url) => Some((head.replay_data@, url)),
                None => None,
            },
        },
        Err(failure) => {
            let error = SendErrorView {
                is_last_attempt: is_last_attempt(attempts, event),
                sleep_ms: backoff_ms(attempts, event),
                failure,
            };
            if is_last_attempt(attempts, event) {
                StepView::Dropped {
                    error,
                    notice: if head.online_mode == OnlinePlayMode::Ranked {
                        Some((Color::Red, Duration::VeryLong, REPORT_FAILED_NOTICE@))
                    } else {
                        None
                    },
                }
            } else {
                StepView::Retry { error }
            }
        },
    }
}

/// The pending reports, oldest first, and the hash of the loaded disc image.
#[derive(Debug)]
pub struct GameReporterQueue {
    iso_hash: String,
    inner: VecDeque<GameReport>,
}

impl View for GameReporterQueue {
    type V = Seq<GameReport>;

    closed spec fn view(&self) -> Seq<GameReport> {
        self.inner@
    }
}

impl GameReporterQueue {
    /// The hash of the loaded disc image; empty until it has been computed.
    pub closed spec fn hash(&self) -> Seq<char> {
        self.iso_hash@
    }

    /// Whether every pending report has a counter that can be counted up.
    pub open spec fn wf(&self) -> bool {
        countable(self@)
    }

    /// Initializes and returns a new, empty queue. No hash is known yet.
    pub fn new() -> (queue: Self)
        ensures
            queue@ == Seq::<GameReport>::empty(),
            queue.hash() == Seq::<char>::empty(),
            queue.wf(),
    {
        GameReporterQueue { iso_hash: String::new(), inner: VecDeque::new() }
    }

    /// The number of pending reports.
    pub fn len(&self) -> (n: usize)
        ensures
            n == self@.len(),
    {
        self.inner.len()
    }

    /// Whether no report is pending.
    pub fn is_empty(&self) -> (r: bool)
        ensures
            r == (self@.len() == 0),
    {
        self.inner.len() == 0
    }

    /// The hash of the loaded disc image; empty until it has been computed.
    pub fn iso_hash(&self) -> (hash: &str)
        ensures
            hash@ == self.hash(),
    {
        self.iso_hash.as_str()
    }

    /// Records the hash of the loaded disc image, over what was there.
    pub fn set_iso_hash(&mut self, hash: String)
        ensures
            final(self).hash() == hash@,
            final(self)@ == old(self)@,
    {
        self.iso_hash = hash;
    }

    /// Adds a new report to the back of the queue.
    pub fn add_report(&mut self, report: GameReport)
        requires
            old(self).wf(),
            0 <= report.attempts < i32::MAX,
        ensures
            final(self)@ == old(self)@.push(report),
            final(self).hash() == old(self).hash(),
            final(self).wf(),
    {
        self.inner.push_back(report);
    }

    /// The body of the request that sends the report at the head of the
    /// queue.
    pub fn next_request(&self) -> (body: String)
        requires
            self@.len() > 0,
        ensures
            body@ == report_request_text(self@[0], self.hash()),
    {
        report_request_body(&self.inner[0], self.iso_hash.as_str())
    }

    /// Takes one step of the drain, given the outcome of the send of the
    /// report at the head of the queue.
    ///
    /// The send is counted. Where it succeeded, or was the last that the
    /// report gets, the report leaves the queue; else it stays where it is.
    pub fn settle_attempt(
        &mut self,
        event: ProcessingEvent,
        outcome: Result<Option<String>, ReportSendErrorKind>,
    ) -> (step: ReportStep)
        requires
            old(self).wf(),
            old(self)@.len() > 0,
        ensures
            final(self)@ == queue_after(old(self)@, event, outcome.is_err()),
            final(self).hash() == old(self).hash(),
            final(self).wf(),
            step@ == step_for(old(self)@[0], event, outcome_view(outcome)),
    {
        let ghost before = self@;
        let mut report = self.inner.pop_front().unwrap();
        assert(report == before[0]);
        assert(self@ == before.drop_first());
        let attempts: i32 = report.attempts + 1;
        let max_attempts: i32 = match event {
            ProcessingEvent::Shutdown => 1,
            ProcessingEvent::ReportAvailable => MAX_REPORT_ATTEMPTS,
        };
        let is_last_attempt = attempts >= max_attempts;
        match outcome {
            Ok(target) => {
                let upload = match target {
                    Some(upload_url) => Some(ReplayUpload { data: report.replay_data, upload_url }),
                    None => None,
                };
                ReportStep::Sent { upload }
            },
            Err(kind) => {
                if is_last_attempt {
                    let notice = match report.online_mode {
                        OnlinePlayMode::Ranked => Some(
                            OsdMessage {
                                color: Color::Red,
                                duration: Duration::VeryLong,
                                text: String::from_str(REPORT_FAILED_NOTICE),
                            },
                        ),
                        _ => None,
                    };
                    ReportStep::Dropped {
                        error: ReportSendError { is_last_attempt: true, sleep_ms: 0, kind },
                        notice,
                    }
                } else {
                    let sleep_ms: u64 = (attempts as u64) * 100;
                    report.attempts = attempts;
                    assert(report == bumped(before[0]));
                    self.inner.push_front(report);
                    assert(self@ =~= before.update(0, bumped(before[0])));
                    ReportStep::Retry {
                        error: ReportSendError { is_last_attempt: false, sleep_ms, kind },
                    }
                }
            },
        }
    }

    /// Takes one step of the drain, given what came back for the send of the
    /// report at the head of the queue: the text of the response, or the
    /// transport's description of why there is none.
    pub fn process_next_report(&mut self, event: ProcessingEvent, sent: Result<String, String>) -> (step:
        ReportStep)
        requires
            old(self).wf(),
            old(self)@.len() > 0,
        ensures
            final(self)@ == queue_after(
                old(self)@,
                event,
                report_outcome(sent_view(sent)).is_err(),
            ),
            final(self).hash() == old(self).hash(),
            final(self).wf(),
            step@ == step_for(old(self)@[0], event, report_outcome(sent_view(sent))),
    {
        let outcome = read_report_outcome(sent);
        self.settle_attempt(event, outcome)
    }
}

} // verus!
