//! Collision-free file names: where an upload may be written without
//! replacing a file that is already there.
//!
//! A requested name is tried as it is; while it is taken, the candidates
//! `stem_1.ext`, `stem_2.ext`, ... are tried in turn. Whether a name is taken
//! is asked of the caller, one candidate at a time, so the check is advisory:
//! nothing here creates a file.

use vstd::prelude::*;
use vstd::set_lib::lemma_len_subset;
use crate::decimal::{append_decimal, decimal, lemma_decimal_injective};

verus! {

/// The name given to a file whose sender named none.
pub open spec fn fallback_name() -> Seq<char> {
    seq!['f', 'i', 'l', 'e']
}

/// The name an upload goes by: the requested one, or the fallback where the
/// request is empty.
pub open spec fn effective_name(requested: Seq<char>) -> Seq<char> {
    if requested.len() == 0 {
        fallback_name()
    } else {
        requested
    }
}

/// The part of `name` before its last `.`; all of it where it has none.
pub open spec fn stem_of(name: Seq<char>) -> Seq<char> {
    match name.index_of_last('.') {
        Some(k) => name.subrange(0, k),
        None => name,
    }
}

/// The part of `name` behind its last `.`; empty where it has none.
pub open spec fn extension_of(name: Seq<char>) -> Seq<char> {
    match name.index_of_last('.') {
        Some(k) => name.subrange(k + 1, name.len() as int),
        None => Seq::empty(),
    }
}

/// What is written behind the stem of candidate `index`, for `index > 0`.
pub open spec fn candidate_suffix(name: Seq<char>, index: nat) -> Seq<char> {
    if extension_of(name).len() == 0 {
        seq!['_'] + decimal(index)
    } else {
        seq!['_'] + decimal(index) + seq!['.'] + extension_of(name)
    }
}

/// The `index`-th candidate for `name`: the name itself for 0, then
/// `stem_index`, followed by `.ext` where the extension is not empty.
pub open spec fn candidate_name(name: Seq<char>, index: nat) -> Seq<char> {
    if index == 0 {
        name
    } else {
        stem_of(name) + candidate_suffix(name, index)
    }
}

/// `index` is the first candidate for `name` that is not among `taken`.
pub open spec fn is_first_free(name: Seq<char>, taken: Set<Seq<char>>, index: nat) -> bool {
    &&& !taken.contains(candidate_name(name, index))
    &&& forall|j: nat| j < index ==> taken.contains(#[trigger] candidate_name(name, j))
}

/// A name is put together again from its stem and extension.
pub proof fn lemma_split_joins(name: Seq<char>)
    ensures
        name.index_of_last('.') is None ==> name == stem_of(name),
        name.index_of_last('.') is Some ==> name == stem_of(name) + seq!['.'] + extension_of(
            name,
        ),
{
    name.index_of_last_ensures('.');
    if name.index_of_last('.') is Some {
        assert(name =~= stem_of(name) + seq!['.'] + extension_of(name));
    }
}

/// No two candidates for one name are the same text.
pub proof fn lemma_candidates_distinct(name: Seq<char>, i: nat, j: nat)
    requires
        candidate_name(name, i) == candidate_name(name, j),
    ensures
        i == j,
{
    let stem = stem_of(name);
    lemma_split_joins(name);
    if i == 0 && j != 0 {
        lemma_bare_name_is_no_later_candidate(name, j);
    } else if j == 0 && i != 0 {
        lemma_bare_name_is_no_later_candidate(name, i);
    } else if i != 0 && j != 0 {
        let ci = candidate_name(name, i);
        let cj = candidate_name(name, j);
        assert(decimal(i).len() == decimal(j).len()) by {
            assert(ci.len() == cj.len());
        }
        let from = stem.len() + 1;
        let to = from + decimal(i).len();
        assert(ci.subrange(from as int, to as int) =~= decimal(i));
        assert(cj.subrange(from as int, to as int) =~= decimal(j));
        lemma_decimal_injective(i, j);
    }
}

/// The name itself differs from each of its numbered candidates.
proof fn lemma_bare_name_is_no_later_candidate(name: Seq<char>, j: nat)
    requires
        j > 0,
    ensures
        name != candidate_name(name, j),
{
    let stem = stem_of(name);
    let c = candidate_name(name, j);
    lemma_split_joins(name);
    assert(c[stem.len() as int] == '_');
    match name.index_of_last('.') {
        Some(k) => {
            name.index_of_last_ensures('.');
            assert(name[stem.len() as int] == '.');
        },
        None => {
            assert(c.len() > name.len());
        },
    }
}

/// Position of the last `.` of `name`, counted in characters.
fn last_dot(name: &str) -> (at: Option<usize>)
    ensures
        at matches Some(k) ==> name@.index_of_last('.') == Some(k as int),
        at is None ==> name@.index_of_last('.') is None,
{
    let mut found: Option<usize> = None;
    let mut i: usize = 0;
    let n: usize = name.unicode_len();
    for c in it: name.chars()
        invariant
            i == it.index(),
            n == name@.len(),
            it.seq() == name@,
            found matches Some(k) ==> k < i && name@[k as int] == '.' && forall|j: int|
                k < j < i ==> name@[j] != '.',
            found is None ==> forall|j: int| 0 <= j < i ==> name@[j] != '.',
    {
        if c == '.' {
            found = Some(i);
        }
        i = i + 1;
    }
    proof {
        name@.index_of_last_ensures('.');
    }
    found
}

/// Splits `name` at its last `.` into stem and extension.
pub fn split_name(name: &str) -> (parts: (String, String))
    ensures
        parts.0@ == stem_of(name@),
        parts.1@ == extension_of(name@),
{
    match last_dot(name) {
        Some(k) => {
            proof {
                name@.index_of_last_ensures('.');
            }
            let n: usize = name.unicode_len();
            let stem = name.substring_char(0, k).to_owned();
            let extension = name.substring_char(k + 1, n).to_owned();
            (stem, extension)
        },
        None => (name.to_owned(), String::new()),
    }
}

/// The `index`-th candidate for `name`.
pub fn candidate(name: &str, index: u64) -> (text: String)
    ensures
        text@ == candidate_name(name@, index as nat),
{
    if index == 0 {
        return name.to_owned();
    }
    let (stem, extension) = split_name(name);
    let mut text = stem;
    proof {
        reveal_strlit("_");
        reveal_strlit(".");
    }
    text.append("_");
    append_decimal(&mut text, index);
    if !extension.as_str().is_empty() {
        text.append(".");
        text.append(extension.as_str());
    }
    assert(text@ =~= candidate_name(name@, index as nat));
    text
}

/// The text of a path: the directory, a `/`, the file name.
pub open spec fn path_text(dir: Seq<char>, file_name: Seq<char>) -> Seq<char> {
    dir + seq!['/'] + file_name
}

/// Where an upload is written: a file name that was free in `dir` when it
/// was asked for. `index` is the candidate that was chosen, 0 for the
/// requested name itself.
#[derive(Debug, PartialEq, Eq)]
pub struct TargetPath {
    pub dir: String,
    pub file_name: String,
    pub index: u64,
}

/// A `TargetPath` as plain text and a number.
pub struct TargetPathView {
    pub dir: Seq<char>,
    pub file_name: Seq<char>,
    pub index: nat,
}

impl View for TargetPath {
    type V = TargetPathView;

    open spec fn view(&self) -> TargetPathView {
        TargetPathView { dir: self.dir@, file_name: self.file_name@, index: self.index as nat }
    }
}

impl TargetPath {
    /// The path as one text, `dir/file_name`.
    pub fn text(&self) -> (text: String)
        ensures
            text@ == path_text(self.dir@, self.file_name@),
    {
        proof {
            reveal_strlit("/");
        }
        let mut text = self.dir.clone();
        text.append("/");
        text.append(self.file_name.as_str());
        assert(text@ =~= path_text(self.dir@, self.file_name@));
        text
    }
}

/// The target for candidate `index` of `name` in `dir`.
pub fn target(dir: &str, name: &str, index: u64) -> (found: TargetPath)
    ensures
        found@ == (TargetPathView {
            dir: dir@,
            file_name: candidate_name(name@, index as nat),
            index: index as nat,
        }),
{
    TargetPath { dir: dir.to_owned(), file_name: candidate(name, index), index }
}

/// The name an upload goes by: `requested`, or the fallback where it is
/// empty.
pub fn name_or_fallback(requested: &str) -> (name: String)
    ensures
        name@ == effective_name(requested@),
{
    if requested.is_empty() {
        proof {
            reveal_strlit("file");
        }
        let name = "file".to_owned();
        assert(name@ =~= fallback_name());
        name
    } else {
        requested.to_owned()
    }
}

/// The file names of a directory listing, as a set of texts.
pub open spec fn names_in(listing: Seq<String>) -> Set<Seq<char>> {
    listing.map_values(|entry: String| entry@).to_set()
}

/// Whether `name` is one of the entries of `listing`.
pub fn is_listed(listing: &Vec<String>, name: &String) -> (listed: bool)
    ensures
        listed == names_in(listing@).contains(name@),
{
    let ghost texts = listing@.map_values(|entry: String| entry@);
    let mut k: usize = 0;
    while k < listing.len()
        invariant
            k <= listing.len(),
            texts == listing@.map_values(|entry: String| entry@),
            forall|j: int| 0 <= j < k ==> texts[j] != name@,
        decreases listing.len() - k,
    {
        if listing[k] == *name {
            assert(texts[k as int] == name@);
            return true;
        }
        k = k + 1;
    }
    false
}

/// Resolves `requested` against a directory that holds the files `taken`:
/// the result is the first candidate, counted from the requested name
/// itself, that is not among them.
pub fn resolve(dir: &str, requested: &str, taken: &Vec<String>) -> (found: TargetPath)
    ensures
        found@.dir == dir@,
        found@.file_name == candidate_name(effective_name(requested@), found@.index),
        is_first_free(effective_name(requested@), names_in(taken@), found@.index),
{
    let name = name_or_fallback(requested);
    let ghost names = names_in(taken@);
    let ghost mut seen: Set<Seq<char>> = Set::empty();
    let mut index: u64 = 0;
    proof {
        vstd::seq_lib::seq_to_set_is_finite(taken@.map_values(|entry: String| entry@));
        taken@.map_values(|entry: String| entry@).lemma_cardinality_of_set();
    }
    loop
        invariant
            name@ == effective_name(requested@),
            names == names_in(taken@),
            names.finite(),
            names.len() <= taken.len(),
            seen.finite(),
            seen.len() == index,
            seen.subset_of(names),
            forall|j: nat| j < index ==> seen.contains(#[trigger] candidate_name(name@, j)),
            forall|text: Seq<char>|
                seen.contains(text) ==> exists|j: nat|
                    j < index && text == #[trigger] candidate_name(name@, j),
        decreases taken.len() - index,
    {
        let found = target(dir, name.as_str(), index);
        proof {
            lemma_len_subset(seen, names);
        }
        if !is_listed(taken, &found.file_name) {
            return found;
        }
        proof {
            let text = candidate_name(name@, index as nat);
            if seen.contains(text) {
                let j = choose|j: nat| j < index && text == #[trigger] candidate_name(name@, j);
                lemma_candidates_distinct(name@, j, index as nat);
            }
            seen = seen.insert(text);
            lemma_len_subset(seen, names);
        }
        index = index + 1;
    }
}

} // verus!
