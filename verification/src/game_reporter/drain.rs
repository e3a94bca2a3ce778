//! What holds of the drain over many steps.

use vstd::prelude::*;
use crate::game_reporter::queue::{
    backoff_ms, bumped, is_last_attempt, max_attempts, queue_after, step_removes_head,
    ProcessingEvent,
};
use crate::game_reporter::types::GameReport;

verus! {

/// The report with its counter set to `attempts`.
pub open spec fn counted(report: GameReport, attempts: int) -> GameReport {
    GameReport { attempts: attempts as i32, ..report }
}

/// The queue after one step for each entry of `failures`, which says of each
/// send in turn whether it failed. The steps end where the queue is empty.
pub open spec fn after_steps(q: Seq<GameReport>, event: ProcessingEvent, failures: Seq<bool>) -> Seq<
    GameReport,
>
    decreases failures.len(),
{
    if failures.len() == 0 || q.len() == 0 {
        q
    } else {
        after_steps(queue_after(q, event, failures[0]), event, failures.drop_first())
    }
}

/// The queue after adding each of `reports` in turn.
pub open spec fn after_adding(q: Seq<GameReport>, reports: Seq<GameReport>) -> Seq<GameReport>
    decreases reports.len(),
{
    if reports.len() == 0 {
        q
    } else {
        after_adding(q.push(reports[0]), reports.drop_first())
    }
}

/// `n` sends of which none failed.
pub open spec fn all_sent(n: nat) -> Seq<bool> {
    Seq::new(n, |i: int| false)
}

/// `n` sends of which each failed.
pub open spec fn all_failed(n: nat) -> Seq<bool> {
    Seq::new(n, |i: int| true)
}

/// Adding reports appends them to the queue in the order in which they were
/// added.
pub proof fn lemma_adding_appends(q: Seq<GameReport>, reports: Seq<GameReport>)
    ensures
        after_adding(q, reports) == q + reports,
    decreases reports.len(),
{
    if reports.len() == 0 {
        assert(q + reports =~= q);
    } else {
        lemma_adding_appends(q.push(reports[0]), reports.drop_first());
        assert(q.push(reports[0]) + reports.drop_first() =~= q + reports);
    }
}

/// While no send fails, each step takes the oldest report off the queue:
/// after `n` steps the first `n` reports have left, in the order in which
/// they stood, and the others stand as they did.
pub proof fn lemma_sends_leave_in_order(q: Seq<GameReport>, event: ProcessingEvent, n: nat)
    requires
        n <= q.len(),
    ensures
        after_steps(q, event, all_sent(n)) == q.skip(n as int),
    decreases n,
{
    if n == 0 {
        assert(q.skip(0) =~= q);
    } else {
        assert(all_sent(n).drop_first() =~= all_sent((n - 1) as nat));
        assert(queue_after(q, event, false) == q.drop_first());
        lemma_sends_leave_in_order(q.drop_first(), event, (n - 1) as nat);
        assert(q.drop_first().skip(n - 1) =~= q.skip(n as int));
    }
}

/// Reports leave in the order in which they were added: where `reports` are
/// added to an empty queue and no send fails, the step after `n` others
/// sends the report that was added after `n` others.
pub proof fn lemma_first_in_first_out(reports: Seq<GameReport>, event: ProcessingEvent, n: nat)
    requires
        n < reports.len(),
    ensures
        after_steps(after_adding(Seq::empty(), reports), event, all_sent(n)).len() > 0,
        after_steps(after_adding(Seq::empty(), reports), event, all_sent(n))[0] == reports[n as int],
{
    lemma_adding_appends(Seq::empty(), reports);
    assert(Seq::<GameReport>::empty() + reports =~= reports);
    lemma_sends_leave_in_order(reports, event, n);
}

/// A report of which every send fails stays at the head of the queue, with
/// each send counted, until it has been sent as often as the event allows;
/// the send that uses up the allowance takes it off the queue.
pub proof fn lemma_failing_report_is_dropped(
    q: Seq<GameReport>,
    event: ProcessingEvent,
    n: nat,
)
    requires
        q.len() > 0,
        0 <= q[0].attempts,
        q[0].attempts + n <= max_attempts(event),
    ensures
        q[0].attempts + n < max_attempts(event) ==> after_steps(q, event, all_failed(n))
            == q.update(0, counted(q[0], q[0].attempts + n)),
        q[0].attempts + n == max_attempts(event) && n > 0 ==> after_steps(
            q,
            event,
            all_failed(n),
        ) == q.drop_first(),
    decreases n,
{
    if n == 0 {
        assert(counted(q[0], q[0].attempts as int) == q[0]);
        assert(q.update(0, q[0]) =~= q);
    } else {
        assert(all_failed(n).drop_first() =~= all_failed((n - 1) as nat));
        let next = queue_after(q, event, true);
        if is_last_attempt(q[0].attempts + 1, event) {
            assert(n == 1);
            assert(next == q.drop_first());
            assert(all_failed(n).drop_first().len() == 0);
            assert(after_steps(next, event, all_failed(n).drop_first()) == next);
            assert(after_steps(q, event, all_failed(n)) == next);
        } else {
            assert(next == q.update(0, bumped(q[0])));
            assert(next[0].attempts == q[0].attempts + 1);
            lemma_failing_report_is_dropped(next, event, (n - 1) as nat);
            assert(counted(next[0], next[0].attempts + (n - 1)) == counted(
                q[0],
                q[0].attempts + n,
            ));
            assert(next.update(0, counted(q[0], q[0].attempts + n)) =~= q.update(
                0,
                counted(q[0], q[0].attempts + n),
            ));
            assert(next.drop_first() =~= q.drop_first());
        }
    }
}

/// A new report of which every send fails is sent `MAX_REPORT_ATTEMPTS`
/// times and then leaves the queue; while the thread shuts down it is sent
/// once.
pub proof fn lemma_new_report_gets_max_attempts(q: Seq<GameReport>, event: ProcessingEvent, n: nat)
    requires
        q.len() > 0,
        q[0].attempts == 0,
        n <= max_attempts(event),
    ensures
        max_attempts(ProcessingEvent::ReportAvailable) == 5,
        max_attempts(ProcessingEvent::Shutdown) == 1,
        n < max_attempts(event) ==> after_steps(q, event, all_failed(n)).len() == q.len()
            && after_steps(q, event, all_failed(n))[0] == counted(q[0], n as int),
        n == max_attempts(event) ==> after_steps(q, event, all_failed(n)) == q.drop_first(),
{
    lemma_failing_report_is_dropped(q, event, n);
}

/// The pause after a failed send is a tenth of a second for each send of the
/// report so far, and none after its last send.
pub proof fn lemma_backoff_is_linear(attempts: int, event: ProcessingEvent)
    ensures
        attempts < max_attempts(event) ==> backoff_ms(attempts, event) == attempts * 100,
        attempts >= max_attempts(event) ==> backoff_ms(attempts, event) == 0,
{
}

/// While the thread shuts down every step takes the head off the queue,
/// whether the send failed or not: no report is sent twice.
pub proof fn lemma_shutdown_sends_once(q: Seq<GameReport>, failed: bool)
    requires
        q.len() > 0,
        0 <= q[0].attempts,
    ensures
        queue_after(q, ProcessingEvent::Shutdown, failed) == q.drop_first(),
{
}

/// While the thread shuts down, a queue of reports is empty after one step
/// for each of them, whatever came of the sends.
pub proof fn lemma_shutdown_drains(q: Seq<GameReport>, failures: Seq<bool>)
    requires
        failures.len() == q.len(),
        forall|i: int| 0 <= i < q.len() ==> 0 <= (#[trigger] q[i]).attempts,
    ensures
        after_steps(q, ProcessingEvent::Shutdown, failures).len() == 0,
    decreases failures.len(),
{
    if failures.len() > 0 {
        lemma_shutdown_sends_once(q, failures[0]);
        lemma_shutdown_drains(q.drop_first(), failures.drop_first());
    }
}

/// A step never reorders the queue: the reports behind the head stand as
/// they did.
pub proof fn lemma_step_keeps_order(q: Seq<GameReport>, event: ProcessingEvent, failed: bool)
    requires
        q.len() > 0,
    ensures
        step_removes_head(q[0], event, failed) ==> queue_after(q, event, failed) == q.drop_first(),
        !step_removes_head(q[0], event, failed) ==> queue_after(q, event, failed).drop_first()
            == q.drop_first(),
{
    if !step_removes_head(q[0], event, failed) {
        assert(q.update(0, bumped(q[0])).drop_first() =~= q.drop_first());
    }
}

/// Steps can be taken in two runs, one after the other.
pub proof fn lemma_steps_compose(
    q: Seq<GameReport>,
    event: ProcessingEvent,
    first: Seq<bool>,
    second: Seq<bool>,
)
    ensures
        after_steps(q, event, first + second) == after_steps(
            after_steps(q, event, first),
            event,
            second,
        ),
    decreases first.len(),
{
    if first.len() == 0 {
        assert(first + second =~= second);
    } else if q.len() == 0 {
        lemma_steps_on_empty(event, second);
    } else {
        assert((first + second).drop_first() =~= first.drop_first() + second);
        lemma_steps_compose(queue_after(q, event, first[0]), event, first.drop_first(), second);
    }
}

/// On an empty queue no step does anything.
pub proof fn lemma_steps_on_empty(event: ProcessingEvent, failures: Seq<bool>)
    ensures
        after_steps(Seq::empty(), event, failures) == Seq::<GameReport>::empty(),
{
}

/// The drain is bounded: where every send fails, a queue of new reports is
/// empty after as many sends for each report as the event allows.
pub proof fn lemma_failing_drain_is_bounded(q: Seq<GameReport>, event: ProcessingEvent)
    requires
        forall|i: int| 0 <= i < q.len() ==> (#[trigger] q[i]).attempts == 0,
    ensures
        after_steps(q, event, all_failed((max_attempts(event) * q.len()) as nat)).len() == 0,
    decreases q.len(),
{
    let max = max_attempts(event) as nat;
    if q.len() > 0 {
        let rest = q.drop_first();
        lemma_new_report_gets_max_attempts(q, event, max);
        lemma_failing_drain_is_bounded(rest, event);
        assert(max * q.len() == max + max * rest.len()) by (nonlinear_arith)
            requires
                q.len() == rest.len() + 1,
        ;
        assert(all_failed((max * q.len()) as nat) =~= all_failed(max) + all_failed(
            (max * rest.len()) as nat,
        ));
        lemma_steps_compose(q, event, all_failed(max), all_failed((max * rest.len()) as nat));
    } else {
        assert(max * q.len() == 0) by (nonlinear_arith)
            requires
                q.len() == 0,
        ;
    }
}

/// Whether `rest` is what is left of `q` after some reports have left from
/// its head: the reports behind the head of `rest` are the last of `q`,
/// unchanged, and the head of `rest` is the report of `q` before them, with
/// nothing changed but the count of its sends.
pub open spec fn is_rest_of(rest: Seq<GameReport>, q: Seq<GameReport>) -> bool {
    &&& rest.len() <= q.len()
    &&& rest.len() > 0 ==> {
        &&& counted(q[q.len() - rest.len()], rest[0].attempts as int) == rest[0]
        &&& rest.drop_first() == q.skip(q.len() - rest.len() + 1)
    }
}

/// Reports leave in the order in which they came, whatever comes of the
/// sends: after any steps the queue holds the reports that came last, in the
/// order in which they came, and the drain has changed nothing of them but
/// the count of the sends of the report at the head.
pub proof fn lemma_order_is_kept(q: Seq<GameReport>, event: ProcessingEvent, failures: Seq<bool>)
    ensures
        is_rest_of(after_steps(q, event, failures), q),
    decreases failures.len(),
{
    if failures.len() == 0 || q.len() == 0 {
        if q.len() > 0 {
            assert(counted(q[0], q[0].attempts as int) == q[0]);
            assert(q.drop_first() =~= q.skip(1));
        }
    } else {
        let next = queue_after(q, event, failures[0]);
        let rest = after_steps(next, event, failures.drop_first());
        lemma_order_is_kept(next, event, failures.drop_first());
        lemma_step_keeps_order(q, event, failures[0]);
        if rest.len() > 0 {
            if step_removes_head(q[0], event, failures[0]) {
                assert(next == q.drop_first());
                assert(next[next.len() - rest.len()] == q[q.len() - rest.len()]);
                assert(next.skip(next.len() - rest.len() + 1) =~= q.skip(q.len() - rest.len() + 1));
            } else {
                assert(next.len() == q.len());
                assert(next.drop_first() == q.drop_first());
                if rest.len() == q.len() {
                    assert(next[0] == bumped(q[0]));
                    assert(counted(q[0], rest[0].attempts as int) == rest[0]);
                } else {
                    assert(next[next.len() - rest.len()] == next.drop_first()[next.len()
                        - rest.len() - 1]);
                    assert(q[q.len() - rest.len()] == q.drop_first()[q.len() - rest.len() - 1]);
                }
                assert(next.skip(next.len() - rest.len() + 1) =~= next.drop_first().skip(
                    next.len() - rest.len(),
                ));
                assert(q.skip(q.len() - rest.len() + 1) =~= q.drop_first().skip(q.len() - rest.len()));
            }
        }
    }
}

} // verus!
