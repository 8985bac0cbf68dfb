//! Scanning a line of text: markers, blanks and tokens.

use vstd::prelude::*;

verus! {

/// Whether `c` is white space: the characters of the Unicode property
/// `White_Space`.
pub open spec fn is_space(c: char) -> bool {
    ||| ('\u{9}' <= c && c <= '\u{D}')
    ||| c == ' '
    ||| c == '\u{85}'
    ||| c == '\u{A0}'
    ||| c == '\u{1680}'
    ||| ('\u{2000}' <= c && c <= '\u{200A}')
    ||| c == '\u{2028}'
    ||| c == '\u{2029}'
    ||| c == '\u{202F}'
    ||| c == '\u{205F}'
    ||| c == '\u{3000}'
}

/// Whether `marker` stands in `line` at index `at`.
pub open spec fn occurs_at(line: Seq<char>, marker: Seq<char>, at: int) -> bool {
    &&& 0 <= at
    &&& at + marker.len() <= line.len()
    &&& line.subrange(at, at + marker.len()) == marker
}

/// Whether `marker` stands somewhere in `line`.
pub open spec fn contains_marker(line: Seq<char>, marker: Seq<char>) -> bool {
    exists|at: int| occurs_at(line, marker, at)
}

/// Whether `at` is where `marker` stands first in `line`.
pub open spec fn is_first_occurrence(line: Seq<char>, marker: Seq<char>, at: int) -> bool {
    &&& occurs_at(line, marker, at)
    &&& forall|earlier: int| 0 <= earlier < at ==> !occurs_at(line, marker, earlier)
}

/// Where `marker` stands first in `line`, if it stands there at all.
pub open spec fn first_occurrence(line: Seq<char>, marker: Seq<char>) -> int {
    choose|at: int| is_first_occurrence(line, marker, at)
}

/// The first index at or after `from` that holds no white space, or the
/// length of `s`.
pub open spec fn skip_spaces(s: Seq<char>, from: int) -> int
    decreases s.len() - from,
{
    if 0 <= from < s.len() && is_space(s[from]) {
        skip_spaces(s, from + 1)
    } else {
        from
    }
}

/// The first index at or after `from` that holds white space, or the length
/// of `s`.
pub open spec fn word_end(s: Seq<char>, from: int) -> int
    decreases s.len() - from,
{
    if 0 <= from < s.len() && !is_space(s[from]) {
        word_end(s, from + 1)
    } else {
        from
    }
}

/// The first token of `s` at or after `from`: the longest run without white
/// space that starts at the first character that is none. It is empty where
/// only white space is left.
pub open spec fn token_after(s: Seq<char>, from: int) -> Seq<char> {
    s.subrange(skip_spaces(s, from), word_end(s, skip_spaces(s, from)))
}

/// There is one first occurrence at most.
pub proof fn lemma_first_occurrence_is(line: Seq<char>, marker: Seq<char>, at: int)
    requires
        is_first_occurrence(line, marker, at),
    ensures
        contains_marker(line, marker),
        first_occurrence(line, marker) == at,
{
    let chosen = first_occurrence(line, marker);
    assert(is_first_occurrence(line, marker, chosen));
    if chosen < at {
        assert(!occurs_at(line, marker, chosen));
    }
    if at < chosen {
        assert(!occurs_at(line, marker, at));
    }
}

/// Blanks are skipped up to the first character that is none.
pub proof fn lemma_skip_spaces(s: Seq<char>, from: int, to: int)
    requires
        0 <= from <= to <= s.len(),
        forall|i: int| from <= i < to ==> is_space(s[i]),
        to == s.len() || !is_space(s[to]),
    ensures
        skip_spaces(s, from) == to,
    decreases to - from,
{
    if from < to {
        lemma_skip_spaces(s, from + 1, to);
    }
}

/// A word runs up to the first blank.
pub proof fn lemma_word_end(s: Seq<char>, from: int, to: int)
    requires
        0 <= from <= to <= s.len(),
        forall|i: int| from <= i < to ==> !is_space(s[i]),
        to == s.len() || is_space(s[to]),
    ensures
        word_end(s, from) == to,
    decreases to - from,
{
    if from < to {
        lemma_word_end(s, from + 1, to);
    }
}

pub fn is_space_char(c: char) -> (space: bool)
    ensures
        space == is_space(c),
{
    ('\u{9}' <= c && c <= '\u{D}') || c == ' ' || c == '\u{85}' || c == '\u{A0}' || c
        == '\u{1680}' || ('\u{2000}' <= c && c <= '\u{200A}') || c == '\u{2028}' || c
        == '\u{2029}' || c == '\u{202F}' || c == '\u{205F}' || c == '\u{3000}'
}

/// Whether `marker` stands in `line` at `at`.
pub fn matches_at(line: &Vec<char>, marker: &Vec<char>, at: usize) -> (found: bool)
    ensures
        found == occurs_at(line@, marker@, at as int),
{
    if marker.len() > line.len() || at > line.len() - marker.len() {
        return false;
    }
    let mut k: usize = 0;
    while k < marker.len()
        invariant
            k <= marker.len(),
            at + marker.len() <= line.len(),
            line@.subrange(at as int, at + k) == marker@.take(k as int),
        decreases marker.len() - k,
    {
        if line[at + k] != marker[k] {
            proof {
                let window = line@.subrange(at as int, at + marker.len());
                assert(window[k as int] != marker@[k as int]);
            }
            return false;
        }
        proof {
            assert(line@.subrange(at as int, at + k + 1) =~= line@.subrange(
                at as int,
                at + k,
            ).push(line@[at + k]));
            assert(marker@.take(k + 1) =~= marker@.take(k as int).push(marker@[k as int]));
        }
        k += 1;
    }
    assert(marker@.take(k as int) =~= marker@);
    true
}

/// Where `marker` stands first in `line`.
pub fn find_marker(line: &Vec<char>, marker: &Vec<char>) -> (found: Option<usize>)
    ensures
        found is Some <==> contains_marker(line@, marker@),
        found matches Some(at) ==> at == first_occurrence(line@, marker@) && is_first_occurrence(
            line@,
            marker@,
            at as int,
        ),
{
    if marker.len() > line.len() {
        assert forall|at: int| !occurs_at(line@, marker@, at) by {}
        return None;
    }
    let last = line.len() - marker.len();
    let mut at: usize = 0;
    loop
        invariant
            at <= last,
            last == line.len() - marker.len(),
            forall|earlier: int| 0 <= earlier < at ==> !occurs_at(line@, marker@, earlier),
        decreases last - at,
    {
        if matches_at(line, marker, at) {
            proof {
                lemma_first_occurrence_is(line@, marker@, at as int);
            }
            return Some(at);
        }
        if at == last {
            assert forall|any: int| !occurs_at(line@, marker@, any) by {}
            return None;
        }
        at += 1;
    }
}

/// The bounds of the first token of `line` at or after `from`: where it
/// starts and where it ends. Both are `from` where `from` lies beyond the
/// line.
pub fn next_token(line: &Vec<char>, from: usize) -> (bounds: (usize, usize))
    ensures
        bounds.0 == skip_spaces(line@, from as int),
        bounds.1 == word_end(line@, bounds.0 as int),
        from <= bounds.0 <= bounds.1,
        from <= line.len() ==> bounds.1 <= line.len(),
        line@.subrange(bounds.0 as int, bounds.1 as int) == token_after(line@, from as int),
{
    let mut start = from;
    while start < line.len() && is_space_char(line[start])
        invariant
            from <= start,
            from <= line.len() ==> start <= line.len(),
            skip_spaces(line@, from as int) == skip_spaces(line@, start as int),
        decreases line.len() - start,
    {
        start += 1;
    }
    let mut end = start;
    while end < line.len() && !is_space_char(line[end])
        invariant
            start <= end,
            start <= line.len() ==> end <= line.len(),
            word_end(line@, start as int) == word_end(line@, end as int),
        decreases line.len() - end,
    {
        end += 1;
    }
    (start, end)
}

/// Whether `s` is white space throughout.
pub open spec fn all_spaces(s: Seq<char>) -> bool {
    forall|i: int| 0 <= i < s.len() ==> is_space(#[trigger] s[i])
}

/// Whether `s` is free of white space.
pub open spec fn no_spaces(s: Seq<char>) -> bool {
    forall|i: int| 0 <= i < s.len() ==> !is_space(#[trigger] s[i])
}

/// In a text made of a head, blanks, a word and a tail that is empty or
/// starts with a blank, the first token after the head is the word.
pub proof fn lemma_token_after(head: Seq<char>, gap: Seq<char>, word: Seq<char>, tail: Seq<char>)
    requires
        all_spaces(gap),
        word.len() > 0,
        no_spaces(word),
        tail.len() == 0 || is_space(tail[0]),
    ensures
        token_after(head + gap + word + tail, head.len() as int) == word,
{
    let s = head + gap + word + tail;
    let start = head.len() + gap.len();
    let end = start + word.len();
    assert forall|i: int| head.len() <= i < start implies is_space(s[i]) by {
        assert(s[i] == gap[i - head.len()]);
    }
    assert forall|i: int| start <= i < end implies !is_space(s[i]) by {
        assert(s[i] == word[i - start]);
    }
    assert(s[start as int] == word[0]);
    if tail.len() > 0 {
        assert(s[end as int] == tail[0]);
    }
    lemma_skip_spaces(s, head.len() as int, start as int);
    lemma_word_end(s, start as int, end as int);
    assert(s.subrange(start as int, end as int) =~= word);
}

} // verus!
