//! Renames that the history of a Repository states, offered as a diagnosis and never applied.
//!
//! Resolution never guesses. A rename recorded in the Repository's own history is no similarity
//! heuristic: the Repository states that this exact path became that exact path in this exact
//! commit. Nothing here resolves a Reference.

use vstd::prelude::*;

use crate::collections::SortedSet;
use crate::engineering::{ArtifactLocator, RepoRelativePath};
use crate::gather::{gathered_first, gathered_next, gathered_none, only};
use crate::lexical::{lines_of, split_lines, trim_text, trimmed};
use crate::text::{begins_with, characters, has_prefix, is_digit, same_text, split_on, split_text};
use crate::value::Value;

verus! {

/// One rename the Repository's own history states, offered as a diagnosis and never applied.
#[derive(Clone, Debug, PartialEq, Eq)]
pub struct RelocationCandidate {
    /// The Repository-relative path the Reference names.
    pub from: String,
    /// The Repository-relative path history says it became.
    pub to: String,
    /// The commit that performed the rename.
    pub commit: String,
}

/// The model of [`RelocationCandidate`].
pub struct RelocationCandidateView {
    pub from: Seq<char>,
    pub to: Seq<char>,
    pub commit: Seq<char>,
}

impl DeepView for RelocationCandidate {
    type V = RelocationCandidateView;

    open spec fn deep_view(&self) -> RelocationCandidateView {
        RelocationCandidateView {
            from: self.from.deep_view(),
            to: self.to.deep_view(),
            commit: self.commit.deep_view(),
        }
    }
}

impl Value for RelocationCandidate {
    fn copied(&self) -> (copy: Self) {
        RelocationCandidate {
            from: self.from.copied(),
            to: self.to.copied(),
            commit: self.commit.copied(),
        }
    }

    fn same(&self, other: &Self) -> (equal: bool) {
        self.from.same(&other.from)
            && self.to.same(&other.to)
            && self.commit.same(&other.commit)
    }
}

/// The only locators that a rename answers for: the ones whose identity is a path.
///
/// A Symbol, Api, Schema, or Test locator carries a path as one component of a compound identity,
/// and a file rename tells nothing about whether the symbol inside it survived.
#[must_use]
pub fn relocatable_path(locator: &ArtifactLocator) -> (path: Option<&RepoRelativePath>)
    ensures
        match path {
            Some(path) => (locator.deep_view() is File || locator.deep_view() is Module) && path@
                == locator.deep_view().path(),
            None => !(locator.deep_view() is File || locator.deep_view() is Module),
        },
{
    match locator {
        ArtifactLocator::File { path } | ArtifactLocator::Module { path } => Some(path),
        _ => None,
    }
}

/// An ASCII hexadecimal digit in either case.
pub open spec fn is_hex_digit(character: char) -> bool {
    is_digit(character) || 65 <= character as u32 <= 70 || 97 <= character as u32 <= 102
}

fn hex_digit(character: char) -> (result: bool)
    ensures
        result == is_hex_digit(character),
{
    let code: u32 = character as u32;
    (48 <= code && code <= 57) || (65 <= code && code <= 70) || (97 <= code && code <= 102)
}

/// The commit that history output names, if it names one: hexadecimal digits and nothing else.
pub open spec fn commit_in(output: Seq<char>) -> Option<Seq<char>> {
    let commit = trimmed(output);
    if commit.len() > 0 && forall|i: int| 0 <= i < commit.len() ==> is_hex_digit(#[trigger] commit[i]) {
        Some(commit)
    } else {
        None
    }
}

/// Reads the commit that history output names.
pub fn removing_commit(output: &str) -> (commit: Option<String>)
    ensures
        commit.deep_view() == commit_in(output@),
{
    let commit = trim_text(output);
    let chars = characters(commit.as_str());
    if chars.len() == 0 {
        return None;
    }
    let mut index: usize = 0;
    while index < chars.len()
        invariant
            index <= chars@.len(),
            chars@ == commit@,
            commit@ == trimmed(output@),
            forall|i: int| 0 <= i < index ==> is_hex_digit(#[trigger] chars@[i]),
        decreases chars@.len() - index,
    {
        if !hex_digit(chars[index]) {
            return None;
        }
        index = index + 1;
    }
    Some(commit)
}

/// Where a line of rename output says that a path went.
pub open spec fn renamed_to(line: Seq<char>, path: Seq<char>) -> Option<Seq<char>> {
    let fields = split_on(line, '\t');
    if fields.len() >= 3 && begins_with(fields[0], "R"@) && fields[1] == path {
        Some(fields[2])
    } else {
        None
    }
}

fn destination_of(line: &str, path: &str) -> (to: Option<String>)
    ensures
        to.deep_view() == renamed_to(line@, path@),
{
    let fields = split_text(line, '\t');
    let ghost model = split_on(line@, '\t');
    assert(model.len() == fields@.len());
    if fields.len() < 3 {
        return None;
    }
    assert(model[0] == fields@[0]@ && model[1] == fields@[1]@ && model[2] == fields@[2]@);
    if has_prefix(fields[0].as_str(), "R") && same_text(fields[1].as_str(), path) {
        Some(fields[2].copied())
    } else {
        None
    }
}

/// Every place that rename output says a path went.
pub open spec fn destinations_in(output: Seq<char>, path: Seq<char>) -> Set<Seq<char>> {
    let lines = lines_of(output);
    Set::new(
        |to: Seq<char>| exists|i: int| 0 <= i < lines.len() && renamed_to(#[trigger] lines[i], path) == Some(to),
    )
}

/// The relocation that rename output states: the one place where a path went, and none where
/// there are several.
pub open spec fn relocation_in(
    path: Seq<char>,
    commit: Seq<char>,
    output: Seq<char>,
) -> Option<RelocationCandidateView> {
    let destinations = destinations_in(output, path);
    if destinations.len() == 1 {
        Some(RelocationCandidateView { from: path, to: destinations.choose(), commit })
    } else {
        None
    }
}

/// Reads the one relocation that rename output states.
pub fn relocation_candidate(path: &RepoRelativePath, commit: &str, output: &str) -> (candidate: Option<
    RelocationCandidate,
>)
    ensures
        candidate.deep_view() == relocation_in(path@, commit@, output@),
{
    let lines = split_lines(output);
    let ghost model = lines_of(output@);
    let ghost share = |line: Seq<char>| only(renamed_to(line, path@));
    let mut destinations: SortedSet<String> = SortedSet::new();
    let mut index: usize = 0;
    proof {
        gathered_none(model, share);
    }
    while index < lines.len()
        invariant
            index <= lines@.len(),
            lines.deep_view() == model,
            share == (|line: Seq<char>| only(renamed_to(line, path@))),
            destinations.deep_view() == gathered_first(model, share, index as int),
        decreases lines@.len() - index,
    {
        assert(model[index as int] == lines@[index as int]@);
        if let Some(to) = destination_of(lines[index].as_str(), path.as_str()) {
            destinations.insert(to);
        }
        proof {
            gathered_next(model, share, index as int);
            assert(destinations.deep_view() =~= gathered_first(model, share, index + 1));
        }
        index = index + 1;
    }
    proof {
        assert(model.len() == lines@.len());
        let all = destinations_in(output@, path@);
        assert forall|to: Seq<char>| destinations.deep_view().contains(to) == all.contains(to) by {
            if destinations.deep_view().contains(to) {
                let i = choose|i: int| 0 <= i < model.len() && share(#[trigger] model[i]).contains(to);
                assert(renamed_to(model[i], path@) == Some(to));
            }
            if all.contains(to) {
                let i = choose|i: int| 0 <= i < model.len() && renamed_to(#[trigger] model[i], path@) == Some(to);
                assert(share(model[i]).contains(to));
            }
        }
        assert(destinations.deep_view() =~= all);
    }
    if destinations.len() != 1 {
        return None;
    }
    let to = destinations.at(0).copied();
    proof {
        let set = destinations.deep_view();
        let chosen = set.choose();
        assert(set.contains(chosen));
        if chosen != to@ {
            assert(set.remove(to@).contains(chosen));
            assert(set.remove(to@).len() == 0);
        }
    }
    Some(RelocationCandidate { from: path.as_str().to_owned(), to, commit: commit.to_owned() })
}

/// The relocation of a path, given whether the path still exists: one that does has not moved,
/// whatever history says of it.
pub fn relocation_of(path: &RepoRelativePath, exists_now: bool, commit: &str, output: &str) -> (candidate: Option<
    RelocationCandidate,
>)
    ensures
        exists_now ==> candidate is None,
        !exists_now ==> candidate.deep_view() == relocation_in(path@, commit@, output@),
{
    if exists_now {
        None
    } else {
        relocation_candidate(path, commit, output)
    }
}

/// A relocation is only reported where history states exactly one destination.
pub proof fn ambiguous_renames_are_no_answer(path: Seq<char>, commit: Seq<char>, output: Seq<char>)
    requires
        destinations_in(output, path).len() > 1,
    ensures
        relocation_in(path, commit, output) is None,
{
}

} // verus!
