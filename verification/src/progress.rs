//! The line parser: from one line of a job's output to at most one progress
//! event.

use vstd::prelude::*;
use crate::number::{
    is_float_literal,
    is_float_token,
    lemma_decimal_round_trip,
    lemma_float_literal_is_one_word,
    lemma_numeral_is_one_word,
    numeral_value,
    parse_usize,
    usize_value,
};
use crate::scan::{
    all_spaces,
    contains_marker,
    find_marker,
    first_occurrence,
    is_first_occurrence,
    is_space,
    lemma_first_occurrence_is,
    lemma_token_after,
    next_token,
    token_after,
};
use crate::text::{chars_of, decimal};

verus! {

/// A fact read from one line of output.
#[derive(Debug, Clone, PartialEq, Eq)]
pub enum ProgressEvent {
    /// The line announced this epoch.
    EpochStarted { epoch: usize },
    /// The line reported a metric. `value` is the token as it stood in the
    /// line, with the syntax of a floating-point literal.
    MetricReported { name: String, value: String },
}

/// The mathematical value of a `ProgressEvent`.
pub enum ProgressEventView {
    EpochStarted { epoch: usize },
    MetricReported { name: Seq<char>, value: Seq<char> },
}

impl View for ProgressEvent {
    type V = ProgressEventView;

    open spec fn view(&self) -> ProgressEventView {
        match self {
            ProgressEvent::EpochStarted { epoch } => ProgressEventView::EpochStarted {
                epoch: *epoch,
            },
            ProgressEvent::MetricReported { name, value } => ProgressEventView::MetricReported {
                name: name@,
                value: value@,
            },
        }
    }
}

impl DeepView for ProgressEvent {
    type V = ProgressEventView;

    open spec fn deep_view(&self) -> ProgressEventView {
        self@
    }
}

/// The marker before an epoch number.
pub open spec fn epoch_marker() -> Seq<char> {
    "epoch:"@
}

/// The marker before a signal-to-distortion ratio.
pub open spec fn sdr_marker() -> Seq<char> {
    "SDR:"@
}

/// The name under which a signal-to-distortion ratio is reported.
pub open spec fn sdr_name() -> Seq<char> {
    "sdr"@
}

/// The first token of `line` after the first occurrence of `marker`.
pub open spec fn token_after_marker(line: Seq<char>, marker: Seq<char>) -> Seq<char> {
    token_after(line, first_occurrence(line, marker) + marker.len())
}

/// What a line with the epoch marker yields: the epoch that the token after
/// the marker writes, or nothing where it writes none.
pub open spec fn epoch_event(line: Seq<char>) -> Option<ProgressEventView> {
    match usize_value(token_after_marker(line, epoch_marker())) {
        Some(epoch) => Some(ProgressEventView::EpochStarted { epoch }),
        None => None,
    }
}

/// What a line with the ratio marker yields: the token after the marker
/// where it is a floating-point literal, else nothing.
pub open spec fn sdr_event(line: Seq<char>) -> Option<ProgressEventView> {
    if is_float_literal(token_after_marker(line, sdr_marker())) {
        Some(
            ProgressEventView::MetricReported {
                name: sdr_name(),
                value: token_after_marker(line, sdr_marker()),
            },
        )
    } else {
        None
    }
}

/// The event of a line. The epoch marker is looked for first: a line that
/// holds it is an epoch line, whatever else it holds. A line with neither
/// marker yields nothing.
pub open spec fn parse_line(line: Seq<char>) -> Option<ProgressEventView> {
    if contains_marker(line, epoch_marker()) {
        epoch_event(line)
    } else if contains_marker(line, sdr_marker()) {
        sdr_event(line)
    } else {
        None
    }
}

/// The characters of `chars` from `start` up to `end`.
fn copy_range(chars: &Vec<char>, start: usize, end: usize) -> (part: Vec<char>)
    requires
        start <= end <= chars.len(),
    ensures
        part@ == chars@.subrange(start as int, end as int),
{
    let mut part: Vec<char> = Vec::new();
    let mut i: usize = start;
    while i < end
        invariant
            start <= i <= end <= chars.len(),
            part@ == chars@.subrange(start as int, i as int),
        decreases end - i,
    {
        part.push(chars[i]);
        assert(part@ =~= chars@.subrange(start as int, i + 1));
        i += 1;
    }
    part
}

/// Reads one line of a job's output. Never fails: a line that says nothing
/// this parser knows yields `None`.
pub fn parse_training_output(line: &str) -> (event: Option<ProgressEvent>)
    ensures
        event.deep_view() == parse_line(line@),
{
    let chars = chars_of(line);
    let epoch = chars_of("epoch:");
    match find_marker(&chars, &epoch) {
        Some(at) => {
            let (start, end) = next_token(&chars, at + epoch.len());
            let token = copy_range(&chars, start, end);
            return match parse_usize(&token) {
                Some(epoch) => Some(ProgressEvent::EpochStarted { epoch }),
                None => None,
            };
        },
        None => {},
    }
    let sdr = chars_of("SDR:");
    match find_marker(&chars, &sdr) {
        Some(at) => {
            let (start, end) = next_token(&chars, at + sdr.len());
            let token = copy_range(&chars, start, end);
            if is_float_token(&token) {
                let value = line.substring_char(start, end).to_owned();
                Some(ProgressEvent::MetricReported { name: "sdr".to_owned(), value })
            } else {
                None
            }
        },
        None => None,
    }
}

/// A line in parts: what stands before the marker, the marker, blanks, a
/// token, and the rest.
pub open spec fn marked_line(
    before: Seq<char>,
    marker: Seq<char>,
    gap: Seq<char>,
    token: Seq<char>,
    rest: Seq<char>,
) -> Seq<char> {
    before + marker + gap + token + rest
}

/// Whether the parts make a line in which the marker after `before` is the
/// first one, only blanks part it from the token, and the token ends where
/// the line ends or a blank follows.
pub open spec fn token_follows_marker(
    before: Seq<char>,
    marker: Seq<char>,
    gap: Seq<char>,
    token: Seq<char>,
    rest: Seq<char>,
) -> bool {
    &&& is_first_occurrence(
        marked_line(before, marker, gap, token, rest),
        marker,
        before.len() as int,
    )
    &&& all_spaces(gap)
    &&& (rest.len() == 0 || is_space(rest[0]))
}

/// An epoch line yields its epoch: where the first epoch marker of a line is
/// followed, after blanks or none, by a numeral of a number that fits a
/// `usize`, the event is `EpochStarted` with exactly that number.
pub proof fn lemma_epoch_token_reported(
    before: Seq<char>,
    gap: Seq<char>,
    token: Seq<char>,
    rest: Seq<char>,
)
    requires
        token_follows_marker(before, epoch_marker(), gap, token, rest),
        numeral_value(token) is Some,
        numeral_value(token)->Some_0 <= usize::MAX,
    ensures
        parse_line(marked_line(before, epoch_marker(), gap, token, rest)) == Some(
            ProgressEventView::EpochStarted { epoch: numeral_value(token)->Some_0 as usize },
        ),
{
    let line = marked_line(before, epoch_marker(), gap, token, rest);
    lemma_first_occurrence_is(line, epoch_marker(), before.len() as int);
    lemma_numeral_is_one_word(token);
    lemma_token_after(before + epoch_marker(), gap, token, rest);
}

/// The same for the shortest numeral of `n`: the line yields the epoch `n`.
pub proof fn lemma_epoch_reported(before: Seq<char>, gap: Seq<char>, n: nat, rest: Seq<char>)
    requires
        token_follows_marker(before, epoch_marker(), gap, decimal(n), rest),
        n <= usize::MAX,
    ensures
        parse_line(marked_line(before, epoch_marker(), gap, decimal(n), rest)) == Some(
            ProgressEventView::EpochStarted { epoch: n as usize },
        ),
{
    lemma_decimal_round_trip(n);
    lemma_epoch_token_reported(before, gap, decimal(n), rest);
}

/// A ratio line yields its ratio: where a line holds no epoch marker and its
/// first ratio marker is followed, after blanks or none, by a floating-point
/// literal, the event is `MetricReported` with the name `sdr` and that
/// literal.
pub proof fn lemma_sdr_reported(
    before: Seq<char>,
    gap: Seq<char>,
    token: Seq<char>,
    rest: Seq<char>,
)
    requires
        token_follows_marker(before, sdr_marker(), gap, token, rest),
        is_float_literal(token),
        !contains_marker(marked_line(before, sdr_marker(), gap, token, rest), epoch_marker()),
    ensures
        parse_line(marked_line(before, sdr_marker(), gap, token, rest)) == Some(
            ProgressEventView::MetricReported { name: sdr_name(), value: token },
        ),
{
    let line = marked_line(before, sdr_marker(), gap, token, rest);
    lemma_first_occurrence_is(line, sdr_marker(), before.len() as int);
    lemma_float_literal_is_one_word(token);
    lemma_token_after(before + sdr_marker(), gap, token, rest);
}

/// When a line yields nothing: it holds neither marker, or it holds the
/// epoch marker and the token after it writes no `usize`, or it holds the
/// ratio marker alone and the token after it is no floating-point literal.
/// In every other case it yields an event.
pub proof fn lemma_no_event(line: Seq<char>)
    ensures
        parse_line(line) is None <==> {
            ||| (!contains_marker(line, epoch_marker()) && !contains_marker(line, sdr_marker()))
            ||| (contains_marker(line, epoch_marker()) && usize_value(
                token_after_marker(line, epoch_marker()),
            ) is None)
            ||| (!contains_marker(line, epoch_marker()) && contains_marker(line, sdr_marker())
                && !is_float_literal(token_after_marker(line, sdr_marker())))
        },
{
}

} // verus!
