//! Draining one output stream of a job: what to do with each thing read.

use vstd::prelude::*;
use crate::job::{JobKind, JobSignal, StreamKind};
use crate::progress::{parse_line, parse_training_output, ProgressEvent, ProgressEventView};

verus! {

/// What one read on a stream gave.
#[derive(Debug, Clone, PartialEq, Eq)]
pub enum StreamRead {
    /// One line, without its line ending.
    Line(String),
    /// The far end closed the stream.
    Closed,
    /// The read failed, for this reason.
    Failed(String),
}

/// The mathematical value of a `StreamRead`.
pub enum StreamReadView {
    Line(Seq<char>),
    Closed,
    Failed(Seq<char>),
}

impl View for StreamRead {
    type V = StreamReadView;

    open spec fn view(&self) -> StreamReadView {
        match self {
            StreamRead::Line(line) => StreamReadView::Line(line@),
            StreamRead::Closed => StreamReadView::Closed,
            StreamRead::Failed(reason) => StreamReadView::Failed(reason@),
        }
    }
}

/// What the drain does with one read.
#[derive(Debug, Clone, PartialEq, Eq)]
pub enum DrainAction {
    /// Push this event to the event channel.
    Emit(ProgressEvent),
    /// Write this text to the diagnostic sink.
    Diagnose(String),
    /// Go on reading.
    Skip,
    /// Write the text, where there is one, to the diagnostic sink; then stop
    /// reading and report the stream closed.
    Close(Option<String>),
}

/// The mathematical value of a `DrainAction`.
pub enum DrainActionView {
    Emit(ProgressEventView),
    Diagnose(Seq<char>),
    Skip,
    Close(Option<Seq<char>>),
}

impl View for DrainAction {
    type V = DrainActionView;

    open spec fn view(&self) -> DrainActionView {
        match self {
            DrainAction::Emit(event) => DrainActionView::Emit(event@),
            DrainAction::Diagnose(text) => DrainActionView::Diagnose(text@),
            DrainAction::Skip => DrainActionView::Skip,
            DrainAction::Close(text) => DrainActionView::Close(text.deep_view()),
        }
    }
}

/// The diagnostic for a line of the error stream.
pub open spec fn diagnostic_text(kind: JobKind, line: Seq<char>) -> Seq<char> {
    kind.label_text() + " error: "@ + line
}

/// The diagnostic for a read that failed.
pub open spec fn read_failure_text(kind: JobKind, stream: StreamKind, reason: Seq<char>) -> Seq<
    char,
> {
    kind.label_text() + " "@ + stream.name_text() + " read failed: "@ + reason
}

/// What the drain of `stream` does with `read`. The end of the stream and a
/// failed read both close the drain; the failed read is logged and goes no
/// further. A line of the standard output goes to the line parser and is
/// emitted where it yields an event; a line of the error stream goes to the
/// diagnostic sink and never to the event channel.
pub open spec fn drain(kind: JobKind, stream: StreamKind, read: StreamReadView) -> DrainActionView {
    match read {
        StreamReadView::Closed => DrainActionView::Close(None),
        StreamReadView::Failed(reason) => DrainActionView::Close(
            Some(read_failure_text(kind, stream, reason)),
        ),
        StreamReadView::Line(line) => match stream {
            StreamKind::Stdout => match parse_line(line) {
                Some(event) => DrainActionView::Emit(event),
                None => DrainActionView::Skip,
            },
            StreamKind::Stderr => DrainActionView::Diagnose(diagnostic_text(kind, line)),
        },
    }
}

/// The signal that reports the drain of `stream` closed.
pub open spec fn closed_signal_of(stream: StreamKind) -> JobSignal {
    match stream {
        StreamKind::Stdout => JobSignal::StdoutClosed,
        StreamKind::Stderr => JobSignal::StderrClosed,
    }
}

/// The events of the lines of a standard output, in the order of the lines:
/// for each line its event, where it has one.
pub open spec fn events_of(lines: Seq<Seq<char>>) -> Seq<ProgressEventView>
    decreases lines.len(),
{
    if lines.len() == 0 {
        Seq::empty()
    } else {
        match parse_line(lines.last()) {
            Some(event) => events_of(lines.drop_last()).push(event),
            None => events_of(lines.drop_last()),
        }
    }
}

/// Decides what to do with one read on a stream.
pub fn drain_step(kind: JobKind, stream: StreamKind, read: StreamRead) -> (action: DrainAction)
    ensures
        action@ == drain(kind, stream, read@),
{
    match read {
        StreamRead::Line(line) => match stream {
            StreamKind::Stdout => match parse_training_output(line.as_str()) {
                Some(event) => DrainAction::Emit(event),
                None => DrainAction::Skip,
            },
            StreamKind::Stderr => {
                let mut text = kind.label().to_owned();
                text.append(" error: ");
                text.append(line.as_str());
                DrainAction::Diagnose(text)
            },
        },
        StreamRead::Closed => DrainAction::Close(None),
        StreamRead::Failed(reason) => {
            let mut text = kind.label().to_owned();
            text.append(" ");
            text.append(stream.name());
            text.append(" read failed: ");
            text.append(reason.as_str());
            DrainAction::Close(Some(text))
        },
    }
}

/// The signal to send to the manager once the drain of `stream` has closed.
pub fn closed_signal(stream: StreamKind) -> (signal: JobSignal)
    ensures
        signal == closed_signal_of(stream),
{
    match stream {
        StreamKind::Stdout => JobSignal::StdoutClosed,
        StreamKind::Stderr => JobSignal::StderrClosed,
    }
}

/// The events of a whole standard output, read line by line.
pub fn collect_events(lines: &Vec<String>) -> (events: Vec<ProgressEvent>)
    ensures
        events.deep_view() == events_of(lines.deep_view()),
{
    let mut events: Vec<ProgressEvent> = Vec::new();
    let mut i: usize = 0;
    assert(lines.deep_view().take(0) =~= Seq::empty());
    assert(events.deep_view() =~= Seq::empty());
    while i < lines.len()
        invariant
            i <= lines.len(),
            events.deep_view() == events_of(lines.deep_view().take(i as int)),
        decreases lines.len() - i,
    {
        let ghost before = events.deep_view();
        let ghost seen = lines.deep_view().take(i + 1);
        proof {
            assert(seen.drop_last() =~= lines.deep_view().take(i as int));
            assert(seen.last() == lines@[i as int]@);
        }
        match parse_training_output(lines[i].as_str()) {
            Some(event) => {
                events.push(event);
                assert(events.deep_view() =~= before.push(event@));
            },
            None => {},
        }
        i += 1;
    }
    assert(lines.deep_view().take(i as int) =~= lines.deep_view());
    events
}

/// Nothing read from the error stream reaches the event channel, and every
/// line read from it reaches the diagnostic sink.
pub proof fn lemma_error_stream_emits_nothing(kind: JobKind, read: StreamReadView)
    ensures
        !(drain(kind, StreamKind::Stderr, read) is Emit),
        read is Line ==> drain(kind, StreamKind::Stderr, read) is Diagnose,
{
}

/// The drain closes exactly on the end of the stream and on a failed read.
pub proof fn lemma_drain_closes_at_the_end(kind: JobKind, stream: StreamKind, read: StreamReadView)
    ensures
        drain(kind, stream, read) is Close <==> !(read is Line),
{
}

/// The events keep the order of the lines: those of two outputs read one
/// after the other are those of the first, then those of the second.
pub proof fn lemma_events_keep_order(first: Seq<Seq<char>>, second: Seq<Seq<char>>)
    ensures
        events_of(first + second) == events_of(first) + events_of(second),
    decreases second.len(),
{
    if second.len() == 0 {
        assert(first + second =~= first);
        assert(events_of(first) + events_of(second) =~= events_of(first));
    } else {
        lemma_events_keep_order(first, second.drop_last());
        assert((first + second).drop_last() =~= first + second.drop_last());
        assert((first + second).last() == second.last());
        match parse_line(second.last()) {
            Some(event) => {
                assert(events_of(first + second) =~= events_of(first) + events_of(second));
            },
            None => {},
        }
    }
}

} // verus!
