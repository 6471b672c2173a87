//! The control loop as a state machine over mathematical values.
//!
//! A state says which request is outstanding ([`Phase`]), which ready
//! tokens of the current wakeup are still to be served, and, for a
//! publisher, where the shape is. [`step`] is the whole behaviour of the
//! loop: from a state and the event that answers the outstanding request
//! to the next state and the next request.

use crate::event::{EventView, OutcomeView, ReportView, RequestView, SampleView, TakenView};
use crate::motion::{advance_motion, MotionView};
use crate::registry::{source_of, Source};
use crate::role::Role;
use vstd::prelude::*;

verus! {

/// The wait of a publisher is bounded by this many milliseconds, so that a
/// shape goes out at least this often.
pub const PUBLISH_PERIOD_MS: u64 = 200;

/// Which request of the loop is outstanding.
#[derive(Debug, PartialEq, Eq, Clone, Copy, Structural)]
pub enum Phase {
    /// A wait for readiness.
    Waiting,
    /// A poll of the cancellation signal.
    Stopping,
    /// A poll of the status channel.
    Status,
    /// The report of a status; the channel is polled again after it.
    StatusNotice,
    /// An attempt to take from the reader.
    Data,
    /// The report of what was taken; the reader is tried again after it.
    DataNotice,
    /// The report of a token that stands for no source served here.
    Stray,
    /// A shape handed to the writer.
    Publishing,
    /// Nothing: the loop has ended.
    Done,
}

/// State of the control loop.
pub struct LoopModel {
    /// The shape in motion, for a publisher; `None` for a subscriber.
    pub mover: Option<MotionView>,
    /// The registered sources with their tokens.
    pub table: Map<Source, usize>,
    /// The ready tokens of the current wakeup that are not served yet.
    pub pending: Seq<usize>,
    /// The outstanding request.
    pub phase: Phase,
}

/// The role that a state belongs to: the publisher is the one with a shape.
pub open spec fn role_of(s: LoopModel) -> Role {
    if s.mover is Some {
        Role::Publisher
    } else {
        Role::Subscriber
    }
}

/// The state in which a loop starts: waiting, with nothing pending.
pub open spec fn initial(mover: Option<MotionView>, table: Map<Source, usize>) -> LoopModel {
    LoopModel { mover, table, pending: Seq::empty(), phase: Phase::Waiting }
}

/// The states in which phase and role fit together: only a subscriber
/// drains a reader, only a publisher publishes, and nothing is pending
/// during a wait. A loop starts in such a state and stays in one.
pub open spec fn coherent(s: LoopModel) -> bool {
    &&& s.phase == Phase::Data || s.phase == Phase::DataNotice ==> role_of(s) == Role::Subscriber
    &&& s.phase == Phase::Publishing ==> role_of(s) == Role::Publisher && s.pending.len() == 0
    &&& s.phase == Phase::Waiting ==> s.pending.len() == 0
}

/// How long a wait may last: the publish period for a publisher, no limit
/// for a subscriber, who has nothing to do between events.
pub open spec fn wait_limit(role: Role) -> Option<u64> {
    match role {
        Role::Publisher => Some(PUBLISH_PERIOD_MS),
        Role::Subscriber => None,
    }
}

/// The report of a status: it names the endpoint of the role.
pub open spec fn status_report(role: Role, text: Seq<char>) -> ReportView {
    match role {
        Role::Publisher => ReportView::WriterStatus(text),
        Role::Subscriber => ReportView::ReaderStatus(text),
    }
}

/// The report of one item taken: the shape of a valued update, the key of
/// a withdrawal.
pub open spec fn sample_report(sample: SampleView) -> ReportView {
    match sample {
        SampleView::Value(shape) => ReportView::Update(shape),
        SampleView::Withdrawn(key) => ReportView::Disposed(key),
    }
}

/// The report that one attempt to take calls for: none when it came back
/// empty, which is no error.
pub open spec fn taken_report(taken: TakenView) -> Option<ReportView> {
    match taken {
        TakenView::Sample(sample) => Some(sample_report(sample)),
        TakenView::Failed(text) => Some(ReportView::ReaderError(text)),
        TakenView::Nothing => None,
    }
}

/// What a ready token leads to: the first request of serving its source,
/// with the phase that awaits the answer. The reader is served by a
/// subscriber only; a token of no served source is reported.
pub open spec fn dispatch(role: Role, table: Map<Source, usize>, token: usize) -> (
    Phase,
    RequestView,
) {
    match source_of(table, token) {
        Some(Source::Stop) => (Phase::Stopping, RequestView::PollStop),
        Some(Source::Status) => (Phase::Status, RequestView::PollStatus),
        Some(Source::Reader) => if role == Role::Subscriber {
            (Phase::Data, RequestView::Take)
        } else {
            (Phase::Stray, RequestView::Report(ReportView::UnexpectedToken(token)))
        },
        None => (Phase::Stray, RequestView::Report(ReportView::UnexpectedToken(token))),
    }
}

/// Goes on with the current wakeup: serves the next pending token, or,
/// when none is left, ends the wakeup. A publisher ends every wakeup by
/// moving its shape one step and publishing it; a subscriber waits again.
pub open spec fn proceed(s: LoopModel) -> (LoopModel, RequestView) {
    if s.pending.len() > 0 {
        let served = dispatch(role_of(s), s.table, s.pending[0]);
        (LoopModel { pending: s.pending.drop_first(), phase: served.0, ..s }, served.1)
    } else {
        match s.mover {
            Some(m) => (
                LoopModel { mover: Some(advance_motion(m)), phase: Phase::Publishing, ..s },
                RequestView::Publish(advance_motion(m).shape),
            ),
            None => (
                LoopModel { phase: Phase::Waiting, ..s },
                RequestView::Wait(wait_limit(Role::Subscriber)),
            ),
        }
    }
}

/// Whether `event` answers the request that is outstanding in `phase`.
pub open spec fn accepts(phase: Phase, event: EventView) -> bool {
    match event {
        EventView::Woke(_) => phase == Phase::Waiting,
        EventView::StopPolled(_) => phase == Phase::Stopping,
        EventView::StatusPolled(_) => phase == Phase::Status,
        EventView::Took(_) => phase == Phase::Data,
        EventView::Published(_) => phase == Phase::Publishing,
        EventView::Reported => phase == Phase::StatusNotice || phase == Phase::DataNotice || phase
            == Phase::Stray,
    }
}

/// The transition of the loop on an event that its phase accepts.
pub open spec fn step(s: LoopModel, event: EventView) -> (LoopModel, RequestView) {
    match event {
        EventView::Woke(tokens) => proceed(LoopModel { pending: tokens, ..s }),
        EventView::StopPolled(consumed) => if consumed {
            (LoopModel { phase: Phase::Done, ..s }, RequestView::Exit(OutcomeView::Cancelled))
        } else {
            proceed(s)
        },
        EventView::StatusPolled(Some(text)) => (
            LoopModel { phase: Phase::StatusNotice, ..s },
            RequestView::Report(status_report(role_of(s), text)),
        ),
        EventView::StatusPolled(None) => proceed(s),
        EventView::Took(taken) => match taken_report(taken) {
            Some(report) => (
                LoopModel { phase: Phase::DataNotice, ..s },
                RequestView::Report(report),
            ),
            None => proceed(s),
        },
        EventView::Published(Ok(())) => (
            LoopModel { phase: Phase::Waiting, ..s },
            RequestView::Wait(wait_limit(role_of(s))),
        ),
        EventView::Published(Err(text)) => (
            LoopModel { phase: Phase::Done, ..s },
            RequestView::Exit(OutcomeView::PublishFailed(text)),
        ),
        EventView::Reported => if s.phase == Phase::StatusNotice {
            (LoopModel { phase: Phase::Status, ..s }, RequestView::PollStatus)
        } else if s.phase == Phase::DataNotice {
            (LoopModel { phase: Phase::Data, ..s }, RequestView::Take)
        } else {
            proceed(s)
        },
    }
}

/// The loop driven through a whole sequence of events: the state it ends
/// in and the requests it made on the way, one for each event. `None` if
/// some event came out of turn.
pub open spec fn run(s: LoopModel, events: Seq<EventView>) -> Option<(LoopModel, Seq<RequestView>)>
    decreases events.len(),
{
    if events.len() == 0 {
        Some((s, Seq::empty()))
    } else if !accepts(s.phase, events[0]) {
        None
    } else {
        match run(step(s, events[0]).0, events.drop_first()) {
            Some(rest) => Some((rest.0, seq![step(s, events[0]).1] + rest.1)),
            None => None,
        }
    }
}

} // verus!
