//! Finding the project root: the nearest directory, from the executable
//! upwards, that holds the scripts this front-end launches.

use vstd::prelude::*;

verus! {

/// Whether `names` holds `name`.
pub open spec fn holds_name(names: Seq<Seq<char>>, name: Seq<char>) -> bool {
    exists|i: int| 0 <= i < names.len() && names[i] == name
}

/// The files that mark the project root: the training script, the
/// inference script and the read-me.
pub open spec fn required_names() -> Seq<Seq<char>> {
    seq!["train.py"@, "inference.py"@, "README.md"@]
}

/// Whether a directory with these entries is the project root: it holds
/// every required file.
pub open spec fn is_root(entries: Seq<Seq<char>>) -> bool {
    forall|i: int|
        0 <= i < required_names().len() ==> holds_name(entries, #[trigger] required_names()[i])
}

/// Whether `at` is the nearest root among `ancestors`, which run from the
/// starting directory upwards.
pub open spec fn is_nearest_root(ancestors: Seq<Seq<Seq<char>>>, at: int) -> bool {
    &&& 0 <= at < ancestors.len()
    &&& is_root(ancestors[at])
    &&& forall|nearer: int| 0 <= nearer < at ==> !is_root(#[trigger] ancestors[nearer])
}

/// Whether `entries` holds the file name `name`.
pub fn has_entry(entries: &Vec<String>, name: &str) -> (found: bool)
    ensures
        found == holds_name(entries.deep_view(), name@),
{
    let wanted = name.to_owned();
    let mut i: usize = 0;
    while i < entries.len()
        invariant
            i <= entries.len(),
            wanted@ == name@,
            forall|k: int| 0 <= k < i ==> (#[trigger] entries.deep_view()[k]) != name@,
        decreases entries.len() - i,
    {
        assert(entries.deep_view()[i as int] == entries@[i as int]@);
        if entries[i] == wanted {
            return true;
        }
        i += 1;
    }
    false
}

/// The names of the files that mark the project root.
pub fn required_files() -> (names: Vec<String>)
    ensures
        names.deep_view() == required_names(),
{
    let mut names: Vec<String> = Vec::new();
    names.push("train.py".to_owned());
    names.push("inference.py".to_owned());
    names.push("README.md".to_owned());
    assert(names.deep_view() =~= required_names());
    names
}

/// Whether a directory with these entries is the project root.
pub fn is_project_root(entries: &Vec<String>) -> (root: bool)
    ensures
        root == is_root(entries.deep_view()),
{
    let root = has_entry(entries, "train.py") && has_entry(entries, "inference.py") && has_entry(
        entries,
        "README.md",
    );
    proof {
        let required = required_names();
        if root {
            assert forall|i: int| 0 <= i < required.len() implies holds_name(
                entries.deep_view(),
                #[trigger] required[i],
            ) by {}
        } else {
            assert(required[0] == "train.py"@);
            assert(required[1] == "inference.py"@);
            assert(required[2] == "README.md"@);
        }
    }
    root
}

/// The index of the nearest project root among `ancestors`: the entries of
/// the starting directory first, then those of its parent, and so on up.
/// `None` where no directory on the way is a root.
pub fn find_project_root(ancestors: &Vec<Vec<String>>) -> (found: Option<usize>)
    ensures
        found matches Some(at) ==> is_nearest_root(ancestors.deep_view(), at as int),
        found is None ==> forall|i: int|
            0 <= i < ancestors.len() ==> !is_root(#[trigger] ancestors.deep_view()[i]),
{
    let mut at: usize = 0;
    while at < ancestors.len()
        invariant
            at <= ancestors.len(),
            forall|nearer: int|
                0 <= nearer < at ==> !is_root(#[trigger] ancestors.deep_view()[nearer]),
        decreases ancestors.len() - at,
    {
        assert(ancestors.deep_view()[at as int] == ancestors@[at as int].deep_view());
        if is_project_root(&ancestors[at]) {
            return Some(at);
        }
        at += 1;
    }
    None
}

} // verus!
