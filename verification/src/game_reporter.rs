//! The game reporter: gathers replay data, queues reports of finished matches
//! and decides how each queued report is sent, retried or given up.

use vstd::prelude::*;

pub mod drain;
pub mod graphql;
pub mod iso_md5_hasher;
pub mod queue;
pub mod replay;
pub mod requests;
pub mod types;
pub mod worker;

pub use queue::{GameReporterQueue, ProcessingEvent};
pub use types::{GameReport, OnlinePlayMode, PlayerReport};

verus! {

/// The public interface for the game reporter service.
///
/// It gathers the replay data of the match that is being played and owns the
/// queue of reports that wait to be sent.
#[derive(Debug)]
pub struct SlippiGameReporter {
    pub queue: GameReporterQueue,
    pub replay_data: Vec<u8>,
}

/// What the reporter holds, as contracts speak of it: the reports that wait
/// to be sent, oldest first, and the replay data that has been gathered for
/// the next report.
pub struct Gathering {
    pub queue: Seq<GameReport>,
    pub gathered: Seq<u8>,
}

/// The report with `data` as its replay.
pub open spec fn with_replay(report: GameReport, data: Vec<u8>) -> GameReport {
    GameReport { replay_data: data, ..report }
}

/// What is held after `data` was pushed: the data stands behind what was
/// gathered before, and the queue is as it was.
pub open spec fn after_push(before: Gathering, data: Seq<u8>) -> Gathering {
    Gathering { queue: before.queue, gathered: before.gathered + data }
}

/// What is held after each of `chunks` was pushed in turn.
pub open spec fn after_pushes(before: Gathering, chunks: Seq<Seq<u8>>) -> Gathering
    decreases chunks.len(),
{
    if chunks.len() == 0 {
        before
    } else {
        after_pushes(after_push(before, chunks[0]), chunks.drop_first())
    }
}

/// Whether `after` is what is held once `report` was logged: the report
/// stands at the end of the queue, with all that was gathered as its replay
/// and nothing else changed, and nothing is gathered yet for the next one.
pub open spec fn is_logged(before: Gathering, report: GameReport, after: Gathering) -> bool {
    &&& after.queue.len() == before.queue.len() + 1
    &&& after.queue.drop_last() == before.queue
    &&& after.queue.last() == with_replay(report, after.queue.last().replay_data)
    &&& after.queue.last().replay_data@ == before.gathered
    &&& after.gathered == Seq::<u8>::empty()
}

/// The chunks, one after the other.
pub open spec fn concatenated(chunks: Seq<Seq<u8>>) -> Seq<u8>
    decreases chunks.len(),
{
    if chunks.len() == 0 {
        Seq::empty()
    } else {
        chunks[0] + concatenated(chunks.drop_first())
    }
}

impl SlippiGameReporter {
    /// What the reporter holds.
    pub open spec fn gathering(&self) -> Gathering {
        Gathering { queue: self.queue@, gathered: self.replay_data@ }
    }

    /// Initializes and returns a new `SlippiGameReporter`: no report is
    /// pending and no replay data has been gathered.
    pub fn new() -> (reporter: Self)
        ensures
            reporter.gathering() == (Gathering { queue: Seq::empty(), gathered: Seq::empty() }),
            reporter.queue.hash() == Seq::<char>::empty(),
            reporter.queue.wf(),
    {
        SlippiGameReporter { queue: GameReporterQueue::new(), replay_data: Vec::new() }
    }

    /// Reserved for what a new session may need: nothing changes.
    pub fn start_new_session(&mut self)
        ensures
            *final(self) == *old(self),
    {
    }

    /// Logs replay data that's passed to it: the data is appended to what
    /// has been gathered since the last report was logged.
    pub fn push_replay_data(&mut self, data: &[u8])
        ensures
            final(self).gathering() == after_push(old(self).gathering(), data@),
            final(self).queue == old(self).queue,
    {
        let ghost before = self.replay_data@;
        let mut i: usize = 0;
        while i < data.len()
            invariant
                i <= data@.len(),
                self.replay_data@ == before + data@.take(i as int),
                self.queue == old(self).queue,
            decreases data@.len() - i,
        {
            self.replay_data.push(data[i]);
            assert(data@.take(i + 1) =~= data@.take(i as int).push(data@[i as int]));
            assert(self.replay_data@ =~= before + data@.take(i + 1));
            i = i + 1;
        }
        assert(data@.take(i as int) =~= data@);
    }

    /// Adds a report for processing and returns the event that tells the
    /// processing thread that there's work to be done.
    ///
    /// All replay data gathered so far moves into the report, and gathering
    /// starts afresh.
    pub fn log_report(&mut self, report: GameReport) -> (event: ProcessingEvent)
        requires
            old(self).queue.wf(),
            0 <= report.attempts < i32::MAX,
        ensures
            is_logged(old(self).gathering(), report, final(self).gathering()),
            final(self).queue.hash() == old(self).queue.hash(),
            final(self).queue.wf(),
            event == ProcessingEvent::ReportAvailable,
    {
        let mut report = report;
        let mut gathered: Vec<u8> = Vec::new();
        std::mem::swap(&mut self.replay_data, &mut gathered);
        report.replay_data = gathered;
        self.queue.add_report(report);
        assert(self.queue@.drop_last() =~= old(self).queue@);
        ProcessingEvent::ReportAvailable
    }
}

/// Replay data that is pushed in several calls is gathered in the order of
/// the calls, behind what was gathered before, and the queue is not
/// touched.
pub proof fn lemma_pushes_concatenate(before: Gathering, chunks: Seq<Seq<u8>>)
    ensures
        after_pushes(before, chunks).gathered == before.gathered + concatenated(chunks),
        after_pushes(before, chunks).queue == before.queue,
    decreases chunks.len(),
{
    if chunks.len() == 0 {
        assert(before.gathered + concatenated(chunks) =~= before.gathered);
    } else {
        lemma_pushes_concatenate(after_push(before, chunks[0]), chunks.drop_first());
        assert((before.gathered + chunks[0]) + concatenated(chunks.drop_first())
            =~= before.gathered + concatenated(chunks));
    }
}

/// The replay data that is pushed before a report is logged goes to that
/// report, in the order in which it was pushed, and to no other; what is
/// pushed after the report was logged is gathered afresh.
///
/// Nothing is gathered at the start. The chunks of `first` are pushed, then
/// `report` is logged, then the chunks of `second` are pushed. At the end
/// the report stands last in the queue with the chunks of `first` as its
/// replay, the reports before it are those that were queued at the start,
/// and the chunks of `second` are what is gathered for the next report.
pub proof fn lemma_replay_goes_to_one_report(
    start: Gathering,
    first: Seq<Seq<u8>>,
    report: GameReport,
    logged: Gathering,
    second: Seq<Seq<u8>>,
)
    requires
        start.gathered == Seq::<u8>::empty(),
        is_logged(after_pushes(start, first), report, logged),
    ensures
        after_pushes(logged, second).queue.len() == start.queue.len() + 1,
        after_pushes(logged, second).queue.drop_last() == start.queue,
        after_pushes(logged, second).queue.last().replay_data@ == concatenated(first),
        after_pushes(logged, second).gathered == concatenated(second),
{
    lemma_pushes_concatenate(start, first);
    lemma_pushes_concatenate(logged, second);
    assert(start.gathered + concatenated(first) =~= concatenated(first));
    assert(logged.gathered + concatenated(second) =~= concatenated(second));
}

} // verus!
