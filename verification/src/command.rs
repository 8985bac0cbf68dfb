//! The command line of the external scripts: the wire contract between this
//! library and the programs it launches.

use vstd::prelude::*;
use crate::text::{decimal, push_decimal};

verus! {

/// A program and its arguments, ready to be spawned.
#[derive(Debug, Clone, PartialEq, Eq)]
pub struct Invocation {
    pub program: String,
    pub args: Vec<String>,
}

/// The mathematical value of an `Invocation`.
pub struct InvocationView {
    pub program: Seq<char>,
    pub args: Seq<Seq<char>>,
}

impl View for Invocation {
    type V = InvocationView;

    open spec fn view(&self) -> InvocationView {
        InvocationView { program: self.program@, args: self.args.deep_view() }
    }
}

/// A flag and its value where there is one, nothing where there is none.
pub open spec fn optional_flag(name: Seq<char>, value: Option<Seq<char>>) -> Seq<Seq<char>> {
    match value {
        Some(v) => seq![name, v],
        None => Seq::empty(),
    }
}

/// The flag once before each value, the values in their order.
pub open spec fn repeated_flag(name: Seq<char>, values: Seq<Seq<char>>) -> Seq<Seq<char>> {
    Seq::new(
        2 * values.len(),
        |i: int|
            if i % 2 == 0 {
                name
            } else {
                values[i / 2]
            },
    )
}

/// The decimal numerals of `ids`, in their order, with a comma between each
/// two.
pub open spec fn comma_joined(ids: Seq<usize>) -> Seq<char>
    decreases ids.len(),
{
    if ids.len() == 0 {
        Seq::empty()
    } else if ids.len() == 1 {
        decimal(ids[0] as nat)
    } else {
        comma_joined(ids.drop_last()) + seq![','] + decimal(ids.last() as nat)
    }
}

/// The decimal numeral of `n` as a string.
pub fn decimal_string(n: usize) -> (text: String)
    ensures
        text@ == decimal(n as nat),
{
    let mut text = String::new();
    push_decimal(&mut text, n as u64);
    assert(text@ =~= decimal(n as nat));
    text
}

/// The numerals of `ids` joined by commas.
pub fn join_ids(ids: &Vec<usize>) -> (text: String)
    ensures
        text@ == comma_joined(ids@),
{
    let mut text = String::new();
    let mut i: usize = 0;
    while i < ids.len()
        invariant
            i <= ids.len(),
            text@ == comma_joined(ids@.take(i as int)),
        decreases ids.len() - i,
    {
        if i > 0 {
            text.append(",");
            proof {
                reveal_strlit(",");
            }
        }
        push_decimal(&mut text, ids[i] as u64);
        proof {
            let next = ids@.take(i + 1);
            assert(next.drop_last() =~= ids@.take(i as int));
            assert(next.last() == ids@[i as int]);
            assert(text@ =~= comma_joined(next));
        }
        i += 1;
    }
    assert(ids@.take(i as int) =~= ids@);
    text
}

/// Appends one argument.
pub fn push_arg(args: &mut Vec<String>, arg: &str)
    ensures
        final(args).deep_view() == old(args).deep_view().push(arg@),
{
    let owned = arg.to_owned();
    args.push(owned);
    assert(args.deep_view() =~= old(args).deep_view().push(arg@));
}

/// Appends a flag and its value.
pub fn push_flag(args: &mut Vec<String>, name: &str, value: &str)
    ensures
        final(args).deep_view() == old(args).deep_view() + seq![name@, value@],
{
    push_arg(args, name);
    push_arg(args, value);
    assert(args.deep_view() =~= old(args).deep_view() + seq![name@, value@]);
}

/// Appends the flag once before each value.
pub fn push_repeated_flag(args: &mut Vec<String>, name: &str, values: &Vec<String>)
    ensures
        final(args).deep_view() == old(args).deep_view() + repeated_flag(
            name@,
            values.deep_view(),
        ),
{
    let mut i: usize = 0;
    while i < values.len()
        invariant
            i <= values.len(),
            args.deep_view() == old(args).deep_view() + repeated_flag(
                name@,
                values.deep_view().take(i as int),
            ),
        decreases values.len() - i,
    {
        push_flag(args, name, values[i].as_str());
        proof {
            let all = values.deep_view();
            assert(all[i as int] == values@[i as int]@);
            assert(repeated_flag(name@, all.take(i + 1)) =~= repeated_flag(
                name@,
                all.take(i as int),
            ) + seq![name@, all[i as int]]);
        }
        i += 1;
    }
    assert(values.deep_view().take(i as int) =~= values.deep_view());
}

} // verus!
