//! The control loop: one dispatch point for the cancellation signal, the
//! data reader and the status channel.
//!
//! [`ControlLoop`] decides; it performs nothing. Its driver starts with
//! [`ControlLoop::first_request`], carries each request out, and hands the
//! answering event to [`ControlLoop::step`], until the request is
//! [`Request::Exit`].

use crate::event::{Event, Outcome, Report, Request, RequestView, Sample, Taken};
use crate::laws::law_loop_stays_coherent;
use crate::model::{
    accepts, coherent, initial, proceed, role_of, step, wait_limit, LoopModel, Phase,
    PUBLISH_PERIOD_MS,
};
use crate::motion::{Motion, MotionView};
use crate::registry::{Registry, Source};
use crate::role::Role;
use vstd::prelude::*;

verus! {

/// The answer to an event that does not answer the outstanding request.
#[derive(Debug, PartialEq, Eq, Clone, Copy)]
pub struct OutOfTurn {
    /// The phase in which the event arrived.
    pub phase: Phase,
}

/// Mathematical value of an optional motion.
pub open spec fn mover_view(mover: Option<Motion>) -> Option<MotionView> {
    match mover {
        Some(m) => Some(m@),
        None => None,
    }
}

/// The control loop of one process.
#[derive(Debug)]
pub struct ControlLoop {
    mover: Option<Motion>,
    registry: Registry,
    ready: Vec<usize>,
    next: usize,
    phase: Phase,
}

impl View for ControlLoop {
    type V = LoopModel;

    closed spec fn view(&self) -> LoopModel {
        LoopModel {
            mover: mover_view(self.mover),
            table: self.registry@,
            pending: if self.next <= self.ready.len() {
                self.ready@.subrange(self.next as int, self.ready.len() as int)
            } else {
                Seq::empty()
            },
            phase: self.phase,
        }
    }
}

impl ControlLoop {
    /// The loop of a publisher that serves the sources of `registry` and
    /// publishes the shape of `motion`.
    pub fn publisher(registry: Registry, motion: Motion) -> (made: ControlLoop)
        ensures
            made@ == initial(Some(motion@), registry@),
            coherent(made@),
    {
        let made = ControlLoop {
            mover: Some(motion),
            registry,
            ready: Vec::new(),
            next: 0,
            phase: Phase::Waiting,
        };
        assert(made@.pending =~= Seq::<usize>::empty());
        made
    }

    /// The loop of a subscriber that serves the sources of `registry`.
    pub fn subscriber(registry: Registry) -> (made: ControlLoop)
        ensures
            made@ == initial(None, registry@),
            coherent(made@),
    {
        let made = ControlLoop {
            mover: None,
            registry,
            ready: Vec::new(),
            next: 0,
            phase: Phase::Waiting,
        };
        assert(made@.pending =~= Seq::<usize>::empty());
        made
    }

    /// The role this loop serves.
    pub fn role(&self) -> (role: Role)
        ensures
            role == role_of(self@),
    {
        if self.mover.is_some() {
            Role::Publisher
        } else {
            Role::Subscriber
        }
    }

    /// The outstanding request, by its kind.
    pub fn phase(&self) -> (phase: Phase)
        ensures
            phase == self@.phase,
    {
        self.phase
    }

    /// Whether the loop has ended.
    pub fn is_done(&self) -> (done: bool)
        ensures
            done == (self@.phase == Phase::Done),
    {
        self.phase == Phase::Done
    }

    /// The registered sources.
    pub fn registry(&self) -> (registry: &Registry)
        ensures
            registry@ == self@.table,
    {
        &self.registry
    }

    /// The shape in motion, if this is a publisher.
    pub fn motion(&self) -> (motion: Option<&Motion>)
        ensures
            match motion {
                Some(m) => self@.mover == Some(m@),
                None => self@.mover is None,
            },
    {
        self.mover.as_ref()
    }

    /// The request that opens the loop, and every later round of it: a wait
    /// for readiness, bounded for a publisher.
    pub fn first_request(&self) -> (request: Request)
        ensures
            request@ == RequestView::Wait(wait_limit(role_of(self@))),
    {
        if self.mover.is_some() {
            Request::Wait(Some(PUBLISH_PERIOD_MS))
        } else {
            Request::Wait(None)
        }
    }

    /// Serves the next pending token or, with none left, ends the wakeup.
    fn proceed(&mut self) -> (request: Request)
        ensures
            (final(self)@, request@) == proceed(old(self)@),
    {
        if self.next < self.ready.len() {
            let token: usize = self.ready[self.next];
            let ghost before = self@;
            self.next = self.next + 1;
            assert(self@.pending =~= before.pending.drop_first());
            assert(before.pending[0] == token);
            match self.registry.source_of(token) {
                Some(Source::Stop) => {
                    self.phase = Phase::Stopping;
                    Request::PollStop
                },
                Some(Source::Status) => {
                    self.phase = Phase::Status;
                    Request::PollStatus
                },
                Some(Source::Reader) => {
                    if self.mover.is_none() {
                        self.phase = Phase::Data;
                        Request::Take
                    } else {
                        self.phase = Phase::Stray;
                        Request::Report(Report::UnexpectedToken(token))
                    }
                },
                None => {
                    self.phase = Phase::Stray;
                    Request::Report(Report::UnexpectedToken(token))
                },
            }
        } else {
            assert(self@.pending.len() == 0);
            match self.mover.take() {
                Some(motion) => {
                    let moved = motion.tick();
                    let shape = moved.shape().clone();
                    self.mover = Some(moved);
                    self.phase = Phase::Publishing;
                    Request::Publish(shape)
                },
                None => {
                    self.phase = Phase::Waiting;
                    Request::Wait(None)
                },
            }
        }
    }

    /// Takes the event that answers the outstanding request and decides
    /// what is to be done next. An event that does not answer the
    /// outstanding request changes nothing and is turned down.
    pub fn step(&mut self, event: Event) -> (answer: Result<Request, OutOfTurn>)
        ensures
            match answer {
                Ok(request) => accepts(old(self)@.phase, event@) && (final(self)@, request@)
                    == step(old(self)@, event@),
                Err(refusal) => !accepts(old(self)@.phase, event@) && final(self)@ == old(self)@
                    && refusal.phase == old(self)@.phase,
            },
            coherent(old(self)@) ==> coherent(final(self)@),
    {
        proof {
            if accepts(self@.phase, event@) && coherent(self@) {
                law_loop_stays_coherent(self@, event@);
            }
        }
        let phase = self.phase;
        match event {
            Event::Woke(tokens) => {
                if phase != Phase::Waiting {
                    return Err(OutOfTurn { phase });
                }
                self.next = 0;
                self.ready = tokens;
                assert(self@.pending =~= tokens@);
                Ok(self.proceed())
            },
            Event::StopPolled(consumed) => {
                if phase != Phase::Stopping {
                    return Err(OutOfTurn { phase });
                }
                if consumed {
                    self.phase = Phase::Done;
                    Ok(Request::Exit(Outcome::Cancelled))
                } else {
                    Ok(self.proceed())
                }
            },
            Event::StatusPolled(status) => {
                if phase != Phase::Status {
                    return Err(OutOfTurn { phase });
                }
                match status {
                    Some(text) => {
                        self.phase = Phase::StatusNotice;
                        if self.mover.is_some() {
                            Ok(Request::Report(Report::WriterStatus(text)))
                        } else {
                            Ok(Request::Report(Report::ReaderStatus(text)))
                        }
                    },
                    None => Ok(self.proceed()),
                }
            },
            Event::Took(taken) => {
                if phase != Phase::Data {
                    return Err(OutOfTurn { phase });
                }
                match taken {
                    Taken::Sample(Sample::Value(shape)) => {
                        self.phase = Phase::DataNotice;
                        Ok(Request::Report(Report::Update(shape)))
                    },
                    Taken::Sample(Sample::Withdrawn(key)) => {
                        self.phase = Phase::DataNotice;
                        Ok(Request::Report(Report::Disposed(key)))
                    },
                    Taken::Failed(text) => {
                        self.phase = Phase::DataNotice;
                        Ok(Request::Report(Report::ReaderError(text)))
                    },
                    Taken::Nothing => Ok(self.proceed()),
                }
            },
            Event::Published(outcome) => {
                if phase != Phase::Publishing {
                    return Err(OutOfTurn { phase });
                }
                match outcome {
                    Ok(()) => {
                        self.phase = Phase::Waiting;
                        Ok(self.first_request())
                    },
                    Err(text) => {
                        self.phase = Phase::Done;
                        Ok(Request::Exit(Outcome::PublishFailed(text)))
                    },
                }
            },
            Event::Reported => {
                if phase == Phase::StatusNotice {
                    self.phase = Phase::Status;
                    Ok(Request::PollStatus)
                } else if phase == Phase::DataNotice {
                    self.phase = Phase::Data;
                    Ok(Request::Take)
                } else if phase == Phase::Stray {
                    Ok(self.proceed())
                } else {
                    Err(OutOfTurn { phase })
                }
            },
        }
    }
}

} // verus!
