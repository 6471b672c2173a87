//! What the control loop asks of its driver, and what the driver tells it.
//!
//! The loop never touches the middleware itself. It hands out one
//! [`Request`] at a time; the driver carries it out and comes back with the
//! [`Event`] that answers it.

use crate::shape::{Shape, ShapeView};
use vstd::prelude::*;

verus! {

/// Mathematical value of an optional text.
pub open spec fn text_view(text: Option<String>) -> Option<Seq<char>> {
    match text {
        Some(t) => Some(t@),
        None => None,
    }
}

/// One item taken from the reader.
#[derive(Debug, PartialEq, Eq)]
pub enum Sample {
    /// An update that carries a whole shape.
    Value(Shape),
    /// The notice that the shape with this key was disposed of.
    Withdrawn(String),
}

/// Mathematical value of a [`Sample`].
pub enum SampleView {
    Value(ShapeView),
    Withdrawn(Seq<char>),
}

impl View for Sample {
    type V = SampleView;

    open spec fn view(&self) -> SampleView {
        match *self {
            Sample::Value(shape) => SampleView::Value(shape@),
            Sample::Withdrawn(key) => SampleView::Withdrawn(key@),
        }
    }
}

/// How one attempt to take from the reader ended.
#[derive(Debug, PartialEq, Eq)]
pub enum Taken {
    /// An item was taken.
    Sample(Sample),
    /// The attempt itself failed; the text describes the failure.
    Failed(String),
    /// No more data is available for now.
    Nothing,
}

/// Mathematical value of a [`Taken`].
pub enum TakenView {
    Sample(SampleView),
    Failed(Seq<char>),
    Nothing,
}

impl View for Taken {
    type V = TakenView;

    open spec fn view(&self) -> TakenView {
        match *self {
            Taken::Sample(sample) => TakenView::Sample(sample@),
            Taken::Failed(text) => TakenView::Failed(text@),
            Taken::Nothing => TakenView::Nothing,
        }
    }
}

/// What the driver reports back to the loop.
#[derive(Debug, PartialEq, Eq)]
pub enum Event {
    /// The wait ended; these tokens were ready, in the order in which they
    /// are to be served. None at all: the wait timed out.
    Woke(Vec<usize>),
    /// The cancellation signal was polled; `true` if one was consumed.
    StopPolled(bool),
    /// The status channel was polled: the next status, rendered as text, or
    /// `None` when none is pending.
    StatusPolled(Option<String>),
    /// One attempt to take from the reader has ended.
    Took(Taken),
    /// The shape was handed to the writer: `Ok`, or the text of the failure.
    Published(Result<(), String>),
    /// The report was put out.
    Reported,
}

/// Mathematical value of an [`Event`].
pub enum EventView {
    Woke(Seq<usize>),
    StopPolled(bool),
    StatusPolled(Option<Seq<char>>),
    Took(TakenView),
    Published(Result<(), Seq<char>>),
    Reported,
}

impl View for Event {
    type V = EventView;

    open spec fn view(&self) -> EventView {
        match *self {
            Event::Woke(tokens) => EventView::Woke(tokens@),
            Event::StopPolled(consumed) => EventView::StopPolled(consumed),
            Event::StatusPolled(status) => EventView::StatusPolled(text_view(status)),
            Event::Took(taken) => EventView::Took(taken@),
            Event::Published(Ok(())) => EventView::Published(Ok(())),
            Event::Published(Err(text)) => EventView::Published(Err(text@)),
            Event::Reported => EventView::Reported,
        }
    }
}

/// A line for the diagnostic stream.
#[derive(Debug, PartialEq, Eq)]
pub enum Report {
    /// A status change of the data writer.
    WriterStatus(String),
    /// A status change of the data reader.
    ReaderStatus(String),
    /// A shape that was received: its fields are to be shown.
    Update(Shape),
    /// The shape with this key was disposed of.
    Disposed(String),
    /// An attempt to take from the reader failed.
    ReaderError(String),
    /// A token was ready that stands for no source this loop serves.
    UnexpectedToken(usize),
}

/// Mathematical value of a [`Report`].
pub enum ReportView {
    WriterStatus(Seq<char>),
    ReaderStatus(Seq<char>),
    Update(ShapeView),
    Disposed(Seq<char>),
    ReaderError(Seq<char>),
    UnexpectedToken(usize),
}

impl View for Report {
    type V = ReportView;

    open spec fn view(&self) -> ReportView {
        match *self {
            Report::WriterStatus(text) => ReportView::WriterStatus(text@),
            Report::ReaderStatus(text) => ReportView::ReaderStatus(text@),
            Report::Update(shape) => ReportView::Update(shape@),
            Report::Disposed(key) => ReportView::Disposed(key@),
            Report::ReaderError(text) => ReportView::ReaderError(text@),
            Report::UnexpectedToken(token) => ReportView::UnexpectedToken(token),
        }
    }
}

/// Why the loop has ended.
#[derive(Debug, PartialEq, Eq)]
pub enum Outcome {
    /// The cancellation signal was consumed: the process ends in success.
    Cancelled,
    /// The writer refused a shape: the process ends in failure.
    PublishFailed(String),
}

/// Mathematical value of an [`Outcome`].
pub enum OutcomeView {
    Cancelled,
    PublishFailed(Seq<char>),
}

impl View for Outcome {
    type V = OutcomeView;

    open spec fn view(&self) -> OutcomeView {
        match *self {
            Outcome::Cancelled => OutcomeView::Cancelled,
            Outcome::PublishFailed(text) => OutcomeView::PublishFailed(text@),
        }
    }
}

/// What the loop asks the driver to do next.
#[derive(Debug, PartialEq, Eq)]
pub enum Request {
    /// Wait until a registered source is ready: at most this many
    /// milliseconds, or without limit. Answered by [`Event::Woke`].
    Wait(Option<u64>),
    /// Try to consume the cancellation signal, without blocking. Answered
    /// by [`Event::StopPolled`].
    PollStop,
    /// Poll the status channel once. Answered by [`Event::StatusPolled`].
    PollStatus,
    /// Try to take the next item from the reader, without blocking.
    /// Answered by [`Event::Took`].
    Take,
    /// Hand this shape to the writer. Answered by [`Event::Published`].
    Publish(Shape),
    /// Put out this report. Answered by [`Event::Reported`].
    Report(Report),
    /// Leave the loop. Nothing answers this.
    Exit(Outcome),
}

/// Mathematical value of a [`Request`].
pub enum RequestView {
    Wait(Option<u64>),
    PollStop,
    PollStatus,
    Take,
    Publish(ShapeView),
    Report(ReportView),
    Exit(OutcomeView),
}

impl View for Request {
    type V = RequestView;

    open spec fn view(&self) -> RequestView {
        match *self {
            Request::Wait(limit) => RequestView::Wait(limit),
            Request::PollStop => RequestView::PollStop,
            Request::PollStatus => RequestView::PollStatus,
            Request::Take => RequestView::Take,
            Request::Publish(shape) => RequestView::Publish(shape@),
            Request::Report(report) => RequestView::Report(report@),
            Request::Exit(outcome) => RequestView::Exit(outcome@),
        }
    }
}

} // verus!
