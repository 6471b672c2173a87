//! What holds of every run of the control loop.

use crate::event::{EventView, OutcomeView, ReportView, RequestView, TakenView};
use crate::model::{
    accepts, coherent, dispatch, initial, proceed, role_of, run, status_report, step,
    taken_report, wait_limit, LoopModel, Phase, PUBLISH_PERIOD_MS,
};
use crate::motion::advance_motion;
use crate::registry::{source_of, Source};
use crate::role::Role;
use vstd::prelude::*;

verus! {

/// Driving the loop through one sequence of events and then through a
/// second one is driving it through both in a row.
pub proof fn lemma_run_splits(s: LoopModel, first: Seq<EventView>, second: Seq<EventView>)
    ensures
        run(s, first + second) == match run(s, first) {
            Some(middle) => match run(middle.0, second) {
                Some(end) => Some((end.0, middle.1 + end.1)),
                None => None,
            },
            None => None,
        },
    decreases first.len(),
{
    if first.len() == 0 {
        assert(first + second =~= second);
        match run(s, second) {
            Some(end) => {
                assert(Seq::<RequestView>::empty() + end.1 =~= end.1);
            },
            None => {},
        }
    } else {
        assert((first + second)[0] == first[0]);
        assert((first + second).drop_first() =~= first.drop_first() + second);
        if accepts(s.phase, first[0]) {
            let after = step(s, first[0]);
            lemma_run_splits(after.0, first.drop_first(), second);
            match run(after.0, first.drop_first()) {
                Some(middle) => {
                    match run(middle.0, second) {
                        Some(end) => {
                            assert(seq![after.1] + (middle.1 + end.1) =~= (seq![after.1]
                                + middle.1) + end.1);
                        },
                        None => {},
                    }
                },
                None => {},
            }
        }
    }
}

/// Serving a token never ends the loop: going on with a wakeup asks for a
/// poll, a take, a report, a publication or the next wait.
pub proof fn lemma_proceed_goes_on(s: LoopModel)
    ensures
        !(proceed(s).1 is Exit),
        proceed(s).0.phase != Phase::Done,
        proceed(s).0.table == s.table,
        role_of(proceed(s).0) == role_of(s),
{
}

/// Whether `event` says that the writer refused a shape.
pub open spec fn failed_publication(event: EventView) -> bool {
    event matches EventView::Published(outcome) && outcome is Err
}

/// The loop ends on exactly two events: a cancellation signal that was
/// consumed, and a publication that failed. Every other event, whatever it
/// reports, is followed by a further request.
pub proof fn law_exit_only_on_cancel_or_failed_publish(s: LoopModel, event: EventView)
    requires
        accepts(s.phase, event),
    ensures
        step(s, event).1 is Exit <==> step(s, event).0.phase == Phase::Done,
        step(s, event).1 is Exit <==> event == EventView::StopPolled(true) || failed_publication(
            event,
        ),
        event == EventView::StopPolled(true) ==> step(s, event).1 == RequestView::Exit(
            OutcomeView::Cancelled,
        ),
        event matches EventView::Published(Err(text)) ==> step(s, event).1 == RequestView::Exit(
            OutcomeView::PublishFailed(text),
        ),
{
    lemma_proceed_goes_on(s);
    match event {
        EventView::Woke(tokens) => {
            lemma_proceed_goes_on(LoopModel { pending: tokens, ..s });
        },
        _ => {},
    }
}

/// Once the loop has ended, no event is taken any more.
pub proof fn law_done_is_final(event: EventView)
    ensures
        !accepts(Phase::Done, event),
{
}

/// Polling a cancellation signal that is not there (a spurious wakeup, or
/// a signal consumed before) does not end the loop: it goes on with the
/// wakeup as if the token had not been ready.
pub proof fn law_empty_stop_poll_goes_on(s: LoopModel)
    requires
        s.phase == Phase::Stopping,
    ensures
        accepts(s.phase, EventView::StopPolled(false)),
        step(s, EventView::StopPolled(false)) == proceed(s),
        !(step(s, EventView::StopPolled(false)).1 is Exit),
        step(s, EventView::StopPolled(false)).0.phase != Phase::Done,
{
    lemma_proceed_goes_on(s);
}

/// The events of draining `queue`: each entry is taken and reported in
/// turn, and then the reader has nothing more.
pub open spec fn drain_events(queue: Seq<TakenView>) -> Seq<EventView> {
    Seq::new(
        2 * queue.len() + 1,
        |i: int|
            if i % 2 == 1 {
                EventView::Reported
            } else if i == 2 * queue.len() {
                EventView::Took(TakenView::Nothing)
            } else {
                EventView::Took(queue[i / 2])
            },
    )
}

/// The requests of draining `queue`: for each entry its report and then a
/// further take, and at the end `then`.
pub open spec fn drain_requests(queue: Seq<TakenView>, then: RequestView) -> Seq<RequestView> {
    Seq::new(
        2 * queue.len() + 1,
        |i: int|
            if i == 2 * queue.len() {
                then
            } else if i % 2 == 0 {
                RequestView::Report(taken_report(queue[i / 2])->0)
            } else {
                RequestView::Take
            },
    )
}

/// A drain empties the queue and then returns. With a take outstanding and
/// `queue` waiting at the reader (updates, withdrawals and failed attempts
/// alike), the loop reports every entry in order, asks for one further take
/// after each, and on the first empty answer goes on with the wakeup, in
/// the state in which the drain began.
pub proof fn law_drain_empties_the_queue(s: LoopModel, queue: Seq<TakenView>)
    requires
        s.phase == Phase::Data,
        forall|i: int| 0 <= i < queue.len() ==> queue[i] != TakenView::Nothing,
    ensures
        run(s, drain_events(queue)) == Some(
            (proceed(s).0, drain_requests(queue, proceed(s).1)),
        ),
    decreases queue.len(),
{
    reveal_with_fuel(run, 3);
    if queue.len() == 0 {
        assert(drain_events(queue) =~= seq![EventView::Took(TakenView::Nothing)]);
        assert(drain_events(queue).drop_first() =~= Seq::<EventView>::empty());
        assert(drain_requests(queue, proceed(s).1) =~= seq![proceed(s).1]);
        assert(seq![proceed(s).1] + Seq::<RequestView>::empty() =~= seq![proceed(s).1]);
    } else {
        let head = seq![EventView::Took(queue[0]), EventView::Reported];
        let rest = queue.drop_first();
        let report = RequestView::Report(taken_report(queue[0])->0);
        assert(drain_events(queue) =~= head + drain_events(rest)) by {
            assert forall|i: int| 0 <= i < 2 * queue.len() + 1 implies drain_events(queue)[i] == (
            head + drain_events(rest))[i] by {
                if i >= 2 {
                    assert((head + drain_events(rest))[i] == drain_events(rest)[i - 2]);
                    assert((i - 2) / 2 == i / 2 - 1);
                    assert((i - 2) % 2 == i % 2);
                }
            }
        }
        assert(drain_requests(queue, proceed(s).1) =~= seq![report, RequestView::Take]
            + drain_requests(rest, proceed(s).1)) by {
            assert forall|i: int| 0 <= i < 2 * queue.len() + 1 implies drain_requests(
                queue,
                proceed(s).1,
            )[i] == (seq![report, RequestView::Take] + drain_requests(rest, proceed(s).1))[i] by {
                if i >= 2 {
                    assert((seq![report, RequestView::Take] + drain_requests(
                        rest,
                        proceed(s).1,
                    ))[i] == drain_requests(rest, proceed(s).1)[i - 2]);
                    assert((i - 2) / 2 == i / 2 - 1);
                    assert((i - 2) % 2 == i % 2);
                }
            }
        }
        assert(queue[0] != TakenView::Nothing);
        let noticed = step(s, head[0]);
        assert(noticed == (LoopModel { phase: Phase::DataNotice, ..s }, report));
        assert(step(noticed.0, head[1]) == (s, RequestView::Take));
        assert(head.drop_first() =~= seq![EventView::Reported]);
        assert(head.drop_first().drop_first() =~= Seq::<EventView>::empty());
        assert(run(s, head) == Some((s, seq![report, RequestView::Take]))) by {
            assert(seq![RequestView::Take] + Seq::<RequestView>::empty() =~= seq![
                RequestView::Take,
            ]);
            assert(seq![report] + seq![RequestView::Take] =~= seq![report, RequestView::Take]);
        }
        law_drain_empties_the_queue(s, rest);
        lemma_run_splits(s, head, drain_events(rest));
    }
}

/// During a drain the loop asks for exactly as many further takes as there
/// are entries in the queue, and it never waits: the requests of a drain
/// before its last are reports and takes in turn.
pub proof fn law_drain_takes_once_per_entry(queue: Seq<TakenView>, then: RequestView, i: int)
    requires
        0 <= i < queue.len(),
    ensures
        drain_requests(queue, then).len() == 2 * queue.len() + 1,
        drain_requests(queue, then)[2 * i] == RequestView::Report(taken_report(queue[i])->0),
        drain_requests(queue, then)[2 * i + 1] == RequestView::Take,
        drain_requests(queue, then)[2 * queue.len() as int] == then,
{
    assert((2 * i) / 2 == i);
    assert((2 * i) % 2 == 0);
    assert((2 * i + 1) % 2 == 1);
}

/// The events of emptying the status channel of `queue`: each status is
/// polled and reported in turn, and then none is pending.
pub open spec fn status_events(queue: Seq<Seq<char>>) -> Seq<EventView> {
    Seq::new(
        2 * queue.len() + 1,
        |i: int|
            if i % 2 == 1 {
                EventView::Reported
            } else if i == 2 * queue.len() {
                EventView::StatusPolled(None)
            } else {
                EventView::StatusPolled(Some(queue[i / 2]))
            },
    )
}

/// The requests of emptying the status channel of `queue` in the given
/// role: for each status its report and then a further poll, and at the
/// end `then`.
pub open spec fn status_requests(role: Role, queue: Seq<Seq<char>>, then: RequestView) -> Seq<
    RequestView,
> {
    Seq::new(
        2 * queue.len() + 1,
        |i: int|
            if i == 2 * queue.len() {
                then
            } else if i % 2 == 0 {
                RequestView::Report(status_report(role, queue[i / 2]))
            } else {
                RequestView::PollStatus
            },
    )
}

/// The status channel is polled until it is empty, and that never ends the
/// loop. With a poll outstanding and `queue` pending, every status is
/// reported in order, under the name of the role's endpoint, and when none
/// is left the loop goes on with the wakeup, in the state in which the
/// polling began.
pub proof fn law_status_channel_is_emptied(s: LoopModel, queue: Seq<Seq<char>>)
    requires
        s.phase == Phase::Status,
    ensures
        run(s, status_events(queue)) == Some(
            (proceed(s).0, status_requests(role_of(s), queue, proceed(s).1)),
        ),
        !(proceed(s).1 is Exit),
    decreases queue.len(),
{
    reveal_with_fuel(run, 3);
    let role = role_of(s);
    let then = proceed(s).1;
    if queue.len() == 0 {
        assert(status_events(queue) =~= seq![EventView::StatusPolled(None)]);
        assert(status_events(queue).drop_first() =~= Seq::<EventView>::empty());
        assert(status_requests(role, queue, then) =~= seq![then]);
        assert(seq![then] + Seq::<RequestView>::empty() =~= seq![then]);
    } else {
        let head = seq![EventView::StatusPolled(Some(queue[0])), EventView::Reported];
        let rest = queue.drop_first();
        let report = RequestView::Report(status_report(role, queue[0]));
        let asked = seq![report, RequestView::PollStatus];
        assert(status_events(queue) =~= head + status_events(rest)) by {
            assert forall|i: int| 0 <= i < 2 * queue.len() + 1 implies status_events(queue)[i] == (
            head + status_events(rest))[i] by {
                if i >= 2 {
                    assert((head + status_events(rest))[i] == status_events(rest)[i - 2]);
                    assert((i - 2) / 2 == i / 2 - 1);
                    assert((i - 2) % 2 == i % 2);
                }
            }
        }
        assert(status_requests(role, queue, then) =~= asked + status_requests(role, rest, then))
            by {
            assert forall|i: int| 0 <= i < 2 * queue.len() + 1 implies status_requests(
                role,
                queue,
                then,
            )[i] == (asked + status_requests(role, rest, then))[i] by {
                if i >= 2 {
                    assert((asked + status_requests(role, rest, then))[i] == status_requests(
                        role,
                        rest,
                        then,
                    )[i - 2]);
                    assert((i - 2) / 2 == i / 2 - 1);
                    assert((i - 2) % 2 == i % 2);
                }
            }
        }
        let noticed = step(s, head[0]);
        assert(noticed == (LoopModel { phase: Phase::StatusNotice, ..s }, report));
        assert(step(noticed.0, head[1]) == (s, RequestView::PollStatus));
        assert(head.drop_first() =~= seq![EventView::Reported]);
        assert(head.drop_first().drop_first() =~= Seq::<EventView>::empty());
        assert(run(s, head) == Some((s, asked))) by {
            assert(seq![RequestView::PollStatus] + Seq::<RequestView>::empty() =~= seq![
                RequestView::PollStatus,
            ]);
            assert(seq![report] + seq![RequestView::PollStatus] =~= asked);
        }
        law_status_channel_is_emptied(s, rest);
        lemma_run_splits(s, head, status_events(rest));
    }
    lemma_proceed_goes_on(s);
}

/// A wait that times out is followed by one publication. With no token
/// ready, a publisher moves its shape by one step, publishes it, and after
/// the publication waits again, for at most the publish period.
pub proof fn law_timeout_publishes_once(s: LoopModel)
    requires
        s.phase == Phase::Waiting,
        s.mover is Some,
    ensures
        run(s, seq![EventView::Woke(Seq::empty()), EventView::Published(Ok(()))]) == Some(
            (
                LoopModel {
                    mover: Some(advance_motion(s.mover->0)),
                    pending: Seq::empty(),
                    phase: Phase::Waiting,
                    ..s
                },
                seq![
                    RequestView::Publish(advance_motion(s.mover->0).shape),
                    RequestView::Wait(Some(PUBLISH_PERIOD_MS)),
                ],
            ),
        ),
{
    reveal_with_fuel(run, 3);
    let events = seq![EventView::Woke(Seq::empty()), EventView::Published(Ok(()))];
    assert(events.drop_first() =~= seq![EventView::Published(Ok(()))]);
    assert(events.drop_first().drop_first() =~= Seq::<EventView>::empty());
    let published = RequestView::Publish(advance_motion(s.mover->0).shape);
    let waits = RequestView::Wait(Some(PUBLISH_PERIOD_MS));
    assert(seq![waits] + Seq::<RequestView>::empty() =~= seq![waits]);
    assert(seq![published] + seq![waits] =~= seq![published, waits]);
}

/// How many of `requests` are publications.
pub open spec fn publications(requests: Seq<RequestView>) -> nat
    decreases requests.len(),
{
    if requests.len() == 0 {
        0
    } else {
        (if requests[0] is Publish {
            1nat
        } else {
            0nat
        }) + publications(requests.drop_first())
    }
}

/// No event of `events` is the end of a wait.
pub open spec fn within_one_wakeup(events: Seq<EventView>) -> bool {
    forall|i: int| 0 <= i < events.len() ==> !(#[trigger] events[i] is Woke)
}

/// The phases in which the tokens of a wakeup are being served.
pub open spec fn serving(phase: Phase) -> bool {
    phase != Phase::Waiting && phase != Phase::Publishing && phase != Phase::Done
}

/// The rest of a wakeup, from any state in it: until the tokens are served
/// nothing is published; then a publisher publishes once, with its shape
/// one step on; and after that nothing more happens in this wakeup.
proof fn lemma_rest_of_wakeup(s: LoopModel, events: Seq<EventView>)
    requires
        within_one_wakeup(events),
        run(s, events) is Some,
    ensures
        ({
            let end = run(s, events)->0;
            &&& publications(end.1) <= 1
            &&& s.mover is None ==> publications(end.1) == 0 && end.0.mover is None
            &&& !serving(s.phase) ==> publications(end.1) == 0 && end.0.mover == s.mover
                && !serving(end.0.phase)
            &&& serving(end.0.phase) ==> publications(end.1) == 0
            &&& serving(s.phase) && s.mover is Some && !serving(end.0.phase) && end.0.phase
                != Phase::Done ==> publications(end.1) == 1
            &&& publications(end.1) == 1 ==> s.mover is Some && end.0.mover == Some(
                advance_motion(s.mover->0),
            )
            &&& publications(end.1) == 0 ==> end.0.mover == s.mover
            &&& s.phase == Phase::Waiting || s.phase == Phase::Done ==> events.len() == 0
        }),
    decreases events.len(),
{
    if events.len() > 0 {
        assert(!(events[0] is Woke));
        let after = step(s, events[0]);
        let rest = events.drop_first();
        assert(within_one_wakeup(rest)) by {
            assert forall|i: int| 0 <= i < rest.len() implies !(#[trigger] rest[i] is Woke) by {
                assert(rest[i] == events[i + 1]);
            }
        }
        lemma_rest_of_wakeup(after.0, rest);
        let tail = run(after.0, rest)->0;
        let all = seq![after.1] + tail.1;
        assert(all.drop_first() =~= tail.1);
        assert(all[0] == after.1);
    }
}

/// Every wakeup of a publisher carries exactly one publication, and no
/// wakeup of a subscriber carries any. From a wait to the next wait,
/// whatever tokens were ready and whatever their sources had to say, the
/// loop publishes once, as the last thing it does, with the shape moved by
/// one step; a wakeup that is still under way or was cut short by the end
/// of the loop has published at most once.
pub proof fn law_one_publication_per_wakeup(
    s: LoopModel,
    tokens: Seq<usize>,
    rest: Seq<EventView>,
)
    requires
        s.phase == Phase::Waiting,
        within_one_wakeup(rest),
        run(s, seq![EventView::Woke(tokens)] + rest) is Some,
    ensures
        ({
            let end = run(s, seq![EventView::Woke(tokens)] + rest)->0;
            &&& publications(end.1) <= 1
            &&& s.mover is None ==> publications(end.1) == 0
            &&& s.mover is Some && (end.0.phase == Phase::Waiting || end.0.phase
                == Phase::Publishing) ==> publications(end.1) == 1
            &&& s.mover is Some && end.0.phase == Phase::Waiting ==> end.0.mover == Some(
                advance_motion(s.mover->0),
            )
            &&& end.0.phase == Phase::Waiting ==> end.1.last() == RequestView::Wait(
                wait_limit(role_of(s)),
            )
        }),
{
    let events = seq![EventView::Woke(tokens)] + rest;
    assert(events[0] == EventView::Woke(tokens));
    assert(events.drop_first() =~= rest);
    let woken = LoopModel { pending: tokens, ..s };
    let after = proceed(woken);
    assert(step(s, events[0]) == after);
    lemma_rest_of_wakeup(after.0, rest);
    let tail = run(after.0, rest)->0;
    let all = seq![after.1] + tail.1;
    assert(all.drop_first() =~= tail.1);
    assert(all[0] == after.1);
    if rest.len() == 0 {
        assert(tail.1 =~= Seq::<RequestView>::empty());
        assert(all.last() == after.1);
    } else {
        lemma_wakeup_ends_in_wait(after.0, rest);
        assert(all.last() == tail.1.last());
    }
}

/// Whenever a run ends in a wait, its last request was that wait, with the
/// limit of the role.
proof fn lemma_wakeup_ends_in_wait(s: LoopModel, events: Seq<EventView>)
    requires
        run(s, events) is Some,
        events.len() > 0,
    ensures
        ({
            let end = run(s, events)->0;
            &&& end.1.len() == events.len()
            &&& end.0.phase == Phase::Waiting ==> end.1.last() == RequestView::Wait(
                wait_limit(role_of(s)),
            )
            &&& role_of(end.0) == role_of(s)
        }),
    decreases events.len(),
{
    let after = step(s, events[0]);
    let rest = events.drop_first();
    lemma_proceed_goes_on(s);
    match events[0] {
        EventView::Woke(tokens) => {
            lemma_proceed_goes_on(LoopModel { pending: tokens, ..s });
        },
        _ => {},
    }
    assert(role_of(after.0) == role_of(s));
    let tail = run(after.0, rest)->0;
    let all = seq![after.1] + tail.1;
    if rest.len() == 0 {
        assert(tail.1 =~= Seq::<RequestView>::empty());
        assert(all.last() == after.1);
    } else {
        lemma_wakeup_ends_in_wait(after.0, rest);
        assert(all.last() == tail.1.last());
    }
}

/// A loop is coherent from its first state on.
pub proof fn law_loop_stays_coherent(s: LoopModel, event: EventView)
    requires
        accepts(s.phase, event),
        coherent(s),
    ensures
        coherent(initial(s.mover, s.table)),
        coherent(step(s, event).0),
        role_of(step(s, event).0) == role_of(s),
        step(s, event).0.table == s.table,
{
}

/// Each role keeps to its side of the topic: a publisher never asks for a
/// take, a subscriber never asks for a publication, a wait is bounded for
/// a publisher and for nobody else, and the report of a status names the
/// endpoint of the role.
pub proof fn law_requests_fit_the_role(s: LoopModel, event: EventView)
    requires
        accepts(s.phase, event),
        coherent(s),
    ensures
        step(s, event).1 is Take ==> role_of(s) == Role::Subscriber,
        step(s, event).1 is Publish ==> role_of(s) == Role::Publisher,
        step(s, event).1 matches RequestView::Wait(limit) ==> limit == wait_limit(role_of(s)),
        step(s, event).1 matches RequestView::Report(ReportView::WriterStatus(_)) ==> role_of(s)
            == Role::Publisher,
        step(s, event).1 matches RequestView::Report(ReportView::ReaderStatus(_)) ==> role_of(s)
            == Role::Subscriber,
{
}

/// What a ready token leads to depends on nothing but the role, the table
/// and the token: the cancellation signal is polled, the status channel is
/// polled, the reader is drained by a subscriber, and every other token is
/// reported and passed over.
pub proof fn law_dispatch_by_token(s: LoopModel, token: usize, others: Seq<usize>)
    requires
        s.pending == seq![token] + others,
    ensures
        proceed(s).0.pending == others,
        (proceed(s).0.phase, proceed(s).1) == dispatch(role_of(s), s.table, token),
        proceed(s).1 is PollStop <==> source_of(s.table, token) == Some(Source::Stop),
        proceed(s).1 is PollStatus <==> source_of(s.table, token) == Some(Source::Status),
        proceed(s).1 is Take <==> source_of(s.table, token) == Some(Source::Reader) && role_of(s)
            == Role::Subscriber,
        !(proceed(s).1 is PollStop || proceed(s).1 is PollStatus || proceed(s).1 is Take)
            ==> proceed(s).1 == RequestView::Report(ReportView::UnexpectedToken(token)),
{
    assert(s.pending.drop_first() =~= others);
}

} // verus!
