//! Reading numbers from tokens: unsigned integers and the syntax of
//! floating-point literals.

use vstd::prelude::*;
use crate::scan::is_space;
use crate::text::{
    chars_of,
    decimal,
    digit_char,
    digit_value,
    is_digit,
    digit_of,
    is_digit_char,
};

verus! {

/// Whether every character of `s` is a digit.
pub open spec fn all_digits(s: Seq<char>) -> bool {
    forall|i: int| 0 <= i < s.len() ==> is_digit(#[trigger] s[i])
}

/// The number that the digits `s` write in base ten; 0 for none.
pub open spec fn digits_value(s: Seq<char>) -> nat
    decreases s.len(),
{
    if s.len() == 0 {
        0
    } else {
        (digits_value(s.drop_last()) * 10 + digit_value(s.last())) as nat
    }
}

/// `token` without its leading `+`, where it has one.
pub open spec fn without_plus(token: Seq<char>) -> Seq<char> {
    if token.len() > 0 && token[0] == '+' {
        token.drop_first()
    } else {
        token
    }
}

/// The value of `token` read as an unsigned integer: an optional `+`, then
/// one digit or more and nothing else.
pub open spec fn numeral_value(token: Seq<char>) -> Option<nat> {
    if without_plus(token).len() > 0 && all_digits(without_plus(token)) {
        Some(digits_value(without_plus(token)))
    } else {
        None
    }
}

/// The value of `token` read as a `usize`: that of the numeral, where it
/// fits.
pub open spec fn usize_value(token: Seq<char>) -> Option<usize> {
    match numeral_value(token) {
        Some(n) => if n <= usize::MAX {
            Some(n as usize)
        } else {
            None
        },
        None => None,
    }
}

/// More digits never write a smaller number.
pub proof fn lemma_digits_value_grows(s: Seq<char>, k: int)
    requires
        all_digits(s),
        0 <= k <= s.len(),
    ensures
        digits_value(s.take(k)) <= digits_value(s),
    decreases s.len() - k,
{
    if k < s.len() {
        lemma_digits_value_grows(s, k + 1);
        let longer = s.take(k + 1);
        assert(longer.drop_last() =~= s.take(k));
        assert(is_digit(s[k]));
        assert(longer.last() == s[k]);
    } else {
        assert(s.take(k) =~= s);
    }
}

/// The shortest numeral of `n` is made of digits and writes `n`.
pub proof fn lemma_decimal_round_trip(n: nat)
    ensures
        decimal(n).len() > 0,
        all_digits(decimal(n)),
        digits_value(decimal(n)) == n,
        numeral_value(decimal(n)) == Some(n),
    decreases n,
{
    if n < 10 {
        let s = decimal(n);
        assert(s.drop_last() =~= Seq::<char>::empty());
        assert(digits_value(s.drop_last()) == 0);
        assert(s.last() == digit_char(n as int));
    } else {
        lemma_decimal_round_trip(n / 10);
        let s = decimal(n);
        assert(s.drop_last() =~= decimal(n / 10));
        assert(s.last() == digit_char((n % 10) as int));
        assert forall|i: int| 0 <= i < s.len() implies is_digit(#[trigger] s[i]) by {
            if i < s.len() - 1 {
                assert(s[i] == decimal(n / 10)[i]);
            }
        }
    }
    assert(decimal(n)[0] != '+');
}

/// Reads `token` as a `usize`.
pub fn parse_usize(token: &Vec<char>) -> (value: Option<usize>)
    ensures
        value == usize_value(token@),
{
    let start: usize = if token.len() > 0 && token[0] == '+' {
        1
    } else {
        0
    };
    let ghost digits = without_plus(token@);
    assert(digits =~= token@.skip(start as int));
    if start == token.len() {
        return None;
    }
    let mut value: usize = 0;
    let mut i: usize = start;
    while i < token.len()
        invariant
            start <= i <= token.len(),
            digits == token@.skip(start as int),
            digits == without_plus(token@),
            all_digits(digits.take(i - start)),
            value == digits_value(digits.take(i - start)),
        decreases token.len() - i,
    {
        let c = token[i];
        let ghost seen = digits.take(i - start);
        let ghost next = digits.take(i - start + 1);
        proof {
            assert(next.drop_last() =~= seen);
            assert(next.last() == c);
        }
        let d = match digit_of(c) {
            Some(d) => d as usize,
            None => {
                assert(!is_digit(digits[i - start]));
                return None;
            },
        };
        assert(all_digits(next)) by {
            assert forall|k: int| 0 <= k < next.len() implies is_digit(#[trigger] next[k]) by {
                if k < seen.len() {
                    assert(next[k] == seen[k]);
                }
            }
        }
        let grown = match value.checked_mul(10) {
            Some(tens) => tens.checked_add(d),
            None => None,
        };
        match grown {
            Some(v) => {
                value = v;
            },
            None => {
                proof {
                    assert(digits_value(next) > usize::MAX);
                    if all_digits(digits) {
                        lemma_digits_value_grows(digits, i - start + 1);
                    }
                }
                return None;
            },
        }
        i += 1;
    }
    assert(digits.take(i - start) =~= digits);
    Some(value)
}

/// Whether `c` is a sign.
pub open spec fn is_sign(c: char) -> bool {
    c == '+' || c == '-'
}

/// Whether `c` opens an exponent.
pub open spec fn is_exponent_mark(c: char) -> bool {
    c == 'e' || c == 'E'
}

/// The first index at or after `from` that holds no digit, or the length of
/// `s`.
pub open spec fn digits_end(s: Seq<char>, from: int) -> int
    decreases s.len() - from,
{
    if 0 <= from < s.len() && is_digit(s[from]) {
        digits_end(s, from + 1)
    } else {
        from
    }
}

/// The index after the sign at `from`, or `from` where no sign stands there.
pub open spec fn after_sign(s: Seq<char>, from: int) -> int {
    if 0 <= from < s.len() && is_sign(s[from]) {
        from + 1
    } else {
        from
    }
}

/// Whether `s` from `from` on is an exponent's value: an optional sign, then
/// one digit or more, up to the end.
pub open spec fn is_exponent_from(s: Seq<char>, from: int) -> bool {
    after_sign(s, from) < s.len() && digits_end(s, after_sign(s, from)) == s.len()
}

/// Whether `s` from `from` on is a decimal number: digits, with at most one
/// point among, before or after them, at least one digit in all, and then
/// nothing or an exponent.
pub open spec fn is_number_from(s: Seq<char>, from: int) -> bool {
    let int_end = digits_end(s, from);
    let frac_start = if int_end < s.len() && s[int_end] == '.' {
        int_end + 1
    } else {
        int_end
    };
    let frac_end = digits_end(s, frac_start);
    &&& (int_end - from) + (frac_end - frac_start) > 0
    &&& (frac_end == s.len() || (is_exponent_mark(s[frac_end]) && is_exponent_from(
        s,
        frac_end + 1,
    )))
}

/// The upper-case form of a letter of the words `inf`, `infinity` and
/// `nan`; any other character as it is.
pub open spec fn upper_case(lower: char) -> char {
    if lower == 'a' {
        'A'
    } else if lower == 'f' {
        'F'
    } else if lower == 'i' {
        'I'
    } else if lower == 'n' {
        'N'
    } else if lower == 't' {
        'T'
    } else if lower == 'y' {
        'Y'
    } else {
        lower
    }
}

/// Whether `c` is the lower-case letter `lower` or its upper-case form.
pub open spec fn same_letter(c: char, lower: char) -> bool {
    c == lower || c == upper_case(lower)
}

/// Whether `s` from `from` on spells the lower-case `word`, in whatever
/// case.
pub open spec fn spells_from(s: Seq<char>, from: int, word: Seq<char>) -> bool {
    &&& s.len() - from == word.len()
    &&& forall|i: int| 0 <= i < word.len() ==> same_letter(s[from + i], #[trigger] word[i])
}

/// Whether `s` from `from` on names infinity or not-a-number.
pub open spec fn is_special_from(s: Seq<char>, from: int) -> bool {
    ||| spells_from(s, from, "inf"@)
    ||| spells_from(s, from, "infinity"@)
    ||| spells_from(s, from, "nan"@)
}

/// Whether `token` has the syntax of a floating-point literal, as
/// `str::parse::<f64>` takes it: an optional sign, then a decimal number
/// with an optional exponent, or one of the words `inf`, `infinity` and
/// `nan` in whatever case.
pub open spec fn is_float_literal(token: Seq<char>) -> bool {
    is_number_from(token, after_sign(token, 0)) || is_special_from(token, after_sign(token, 0))
}

/// A run of digits is made of digits and stays inside the text.
pub proof fn lemma_digits_end(s: Seq<char>, from: int)
    requires
        0 <= from <= s.len(),
    ensures
        from <= digits_end(s, from) <= s.len(),
        forall|i: int| from <= i < digits_end(s, from) ==> is_digit(#[trigger] s[i]),
        digits_end(s, from) < s.len() ==> !is_digit(s[digits_end(s, from)]),
    decreases s.len() - from,
{
    if from < s.len() && is_digit(s[from]) {
        lemma_digits_end(s, from + 1);
    }
}

/// A run of digits that is known to end at `to` ends there.
pub proof fn lemma_digits_end_is(s: Seq<char>, from: int, to: int)
    requires
        0 <= from <= to <= s.len(),
        forall|i: int| from <= i < to ==> is_digit(#[trigger] s[i]),
        to == s.len() || !is_digit(s[to]),
    ensures
        digits_end(s, from) == to,
    decreases to - from,
{
    if from < to {
        lemma_digits_end_is(s, from + 1, to);
    }
}

/// A floating-point literal is not empty and holds no white space, so it is
/// one token.
pub proof fn lemma_float_literal_is_one_word(token: Seq<char>)
    requires
        is_float_literal(token),
    ensures
        token.len() > 0,
        forall|i: int| 0 <= i < token.len() ==> !is_space(#[trigger] token[i]),
{
    let from = after_sign(token, 0);
    reveal_strlit("inf");
    reveal_strlit("infinity");
    reveal_strlit("nan");
    assert forall|i: int| 0 <= i < token.len() implies !is_space(#[trigger] token[i]) by {
        if i < from {
            assert(is_sign(token[i]));
        } else if is_number_from(token, from) {
            let int_end = digits_end(token, from);
            lemma_digits_end(token, from);
            let frac_start = if int_end < token.len() && token[int_end] == '.' {
                int_end + 1
            } else {
                int_end
            };
            lemma_digits_end(token, frac_start);
            let frac_end = digits_end(token, frac_start);
            if i < int_end {
                assert(is_digit(token[i]));
            } else if i < frac_start {
                assert(token[i] == '.');
            } else if i < frac_end {
                assert(is_digit(token[i]));
            } else if i == frac_end {
                assert(is_exponent_mark(token[i]));
            } else {
                let digits_start = after_sign(token, frac_end + 1);
                lemma_digits_end(token, digits_start);
                if i < digits_start {
                    assert(is_sign(token[i]));
                } else {
                    assert(is_digit(token[i]));
                }
            }
        } else {
            let word = if spells_from(token, from, "inf"@) {
                "inf"@
            } else if spells_from(token, from, "infinity"@) {
                "infinity"@
            } else {
                "nan"@
            };
            assert(spells_from(token, from, word));
            assert(same_letter(token[from + (i - from)], word[i - from]));
            assert(token[from + (i - from)] == token[i]);
        }
    }
    if is_number_from(token, from) {
        lemma_digits_end(token, from);
        let int_end = digits_end(token, from);
        let frac_start = if int_end < token.len() && token[int_end] == '.' {
            int_end + 1
        } else {
            int_end
        };
        lemma_digits_end(token, frac_start);
    }
}

/// Digits, a point and digits again, with a digit before the point, are a
/// floating-point literal; so are digits alone.
pub proof fn lemma_decimal_fraction_is_float(whole: Seq<char>, fraction: Seq<char>)
    requires
        whole.len() > 0,
        all_digits(whole),
        all_digits(fraction),
    ensures
        is_float_literal(whole + seq!['.'] + fraction),
        is_float_literal(whole),
{
    let text = whole + seq!['.'] + fraction;
    assert(is_digit(whole[0]));
    assert(text[0] == whole[0]);
    assert(after_sign(text, 0) == 0);
    assert forall|i: int| 0 <= i < whole.len() implies is_digit(#[trigger] text[i]) by {
        assert(text[i] == whole[i]);
    }
    assert(text[whole.len() as int] == '.');
    lemma_digits_end_is(text, 0, whole.len() as int);
    assert forall|i: int| whole.len() + 1 <= i < text.len() implies is_digit(
        #[trigger] text[i],
    ) by {
        assert(text[i] == fraction[i - whole.len() - 1]);
    }
    lemma_digits_end_is(text, whole.len() as int + 1, text.len() as int);
    assert(is_number_from(text, 0));
    assert(after_sign(whole, 0) == 0);
    lemma_digits_end_is(whole, 0, whole.len() as int);
    lemma_digits_end_is(whole, whole.len() as int, whole.len() as int);
    assert(is_number_from(whole, 0));
}

fn scan_digits(s: &Vec<char>, from: usize) -> (end: usize)
    requires
        from <= s.len(),
    ensures
        end == digits_end(s@, from as int),
        from <= end <= s.len(),
{
    let mut end = from;
    while end < s.len() && is_digit_char(s[end])
        invariant
            from <= end <= s.len(),
            digits_end(s@, from as int) == digits_end(s@, end as int),
        decreases s.len() - end,
    {
        end += 1;
    }
    end
}

fn skip_sign(s: &Vec<char>, from: usize) -> (next: usize)
    requires
        from <= s.len(),
    ensures
        next == after_sign(s@, from as int),
        from <= next <= s.len(),
{
    if from < s.len() && (s[from] == '+' || s[from] == '-') {
        from + 1
    } else {
        from
    }
}

fn upper_case_of(lower: char) -> (upper: char)
    ensures
        upper == upper_case(lower),
{
    if lower == 'a' {
        'A'
    } else if lower == 'f' {
        'F'
    } else if lower == 'i' {
        'I'
    } else if lower == 'n' {
        'N'
    } else if lower == 't' {
        'T'
    } else if lower == 'y' {
        'Y'
    } else {
        lower
    }
}

fn spells(s: &Vec<char>, from: usize, word: &str) -> (same: bool)
    requires
        from <= s.len(),
    ensures
        same == spells_from(s@, from as int, word@),
{
    let letters = chars_of(word);
    if s.len() - from != letters.len() {
        return false;
    }
    let mut i: usize = 0;
    while i < letters.len()
        invariant
            i <= letters.len(),
            letters@ == word@,
            s.len() - from == letters.len(),
            forall|k: int| 0 <= k < i ==> same_letter(s@[from + k], #[trigger] word@[k]),
        decreases letters.len() - i,
    {
        let c = s[from + i];
        let lower = letters[i];
        if c != lower && c != upper_case_of(lower) {
            assert(!same_letter(s@[from + i], word@[i as int]));
            return false;
        }
        i += 1;
    }
    true
}

/// Whether `token` has the syntax of a floating-point literal.
pub fn is_float_token(token: &Vec<char>) -> (float: bool)
    ensures
        float == is_float_literal(token@),
{
    let from = skip_sign(token, 0);
    let int_end = scan_digits(token, from);
    let frac_start = if int_end < token.len() && token[int_end] == '.' {
        int_end + 1
    } else {
        int_end
    };
    let frac_end = scan_digits(token, frac_start);
    let has_digit = (int_end - from) + (frac_end - frac_start) > 0;
    let number = has_digit && if frac_end == token.len() {
        true
    } else if token[frac_end] == 'e' || token[frac_end] == 'E' {
        let digits_start = skip_sign(token, frac_end + 1);
        digits_start < token.len() && scan_digits(token, digits_start) == token.len()
    } else {
        false
    };
    number || spells(token, from, "inf") || spells(token, from, "infinity") || spells(
        token,
        from,
        "nan",
    )
}

/// A numeral is not empty and holds no white space, so it is one token.
pub proof fn lemma_numeral_is_one_word(token: Seq<char>)
    requires
        numeral_value(token) is Some,
    ensures
        token.len() > 0,
        forall|i: int| 0 <= i < token.len() ==> !is_space(#[trigger] token[i]),
{
    let digits = without_plus(token);
    assert forall|i: int| 0 <= i < token.len() implies !is_space(#[trigger] token[i]) by {
        if token[0] == '+' {
            if i > 0 {
                assert(is_digit(digits[i - 1]));
            }
        } else {
            assert(is_digit(digits[i]));
        }
    }
}

} // verus!
