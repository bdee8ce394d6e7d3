//! Naming a repository: the `owner/repo` form, and the addresses of git
//! remotes that point at one.

use vstd::prelude::*;
use vstd::string::StringExecFns;
use crate::text::{
    chars_of, find_from, lines_text, matches_at, occurs_at, owned, spells, split_lines, string_of,
    text_lines, trim_bounds, trimmed,
};

verus! {

/// Why a text names no repository.
#[derive(Debug)]
pub enum RepoError {
    /// The text is not of the form `owner/repo`.
    InvalidRepo { input: String },
    /// The address is not one of the two forms that are understood.
    UnknownUrl { url: String },
}

/// A [`RepoError`] as plain values.
pub enum RepoErrorModel {
    InvalidRepo { input: Seq<char> },
    UnknownUrl { url: Seq<char> },
}

impl View for RepoError {
    type V = RepoErrorModel;

    open spec fn view(&self) -> RepoErrorModel {
        match *self {
            RepoError::InvalidRepo { input } => RepoErrorModel::InvalidRepo { input: input@ },
            RepoError::UnknownUrl { url } => RepoErrorModel::UnknownUrl { url: url@ },
        }
    }
}

impl RepoErrorModel {
    /// The error in words.
    pub open spec fn message(self) -> Seq<char> {
        match self {
            RepoErrorModel::InvalidRepo { input } => "Invalid repo format: '"@ + input
                + "'. Expected 'owner/repo'"@,
            RepoErrorModel::UnknownUrl { url } => "Could not parse GitHub URL: "@ + url,
        }
    }
}

impl RepoError {
    /// The error in words.
    pub fn message(&self) -> (text: String)
        ensures
            text@ == self@.message(),
    {
        match self {
            RepoError::InvalidRepo { input } => {
                let mut text = owned("Invalid repo format: '");
                text.append(input.as_str());
                text.append("'. Expected 'owner/repo'");
                text
            },
            RepoError::UnknownUrl { url } => {
                let mut text = owned("Could not parse GitHub URL: ");
                text.append(url.as_str());
                text
            },
        }
    }
}

/// Whether `s` has its one and only slash at `at`, with text on both sides.
pub open spec fn splits_at(s: Seq<char>, at: int) -> bool {
    &&& 0 < at < s.len() - 1
    &&& s[at] == '/'
    &&& forall|j: int| 0 <= j < s.len() && j != at ==> s[j] != '/'
}

/// The owner and the name that `s` gives in the form `owner/repo`.
pub open spec fn repo_of(s: Seq<char>) -> Option<(Seq<char>, Seq<char>)> {
    if exists|at: int| splits_at(s, at) {
        let at = choose|at: int| splits_at(s, at);
        Some((s.subrange(0, at), s.subrange(at + 1, s.len() as int)))
    } else {
        None
    }
}

/// `s` without every `word` at its end.
pub open spec fn trim_end_word(s: Seq<char>, word: Seq<char>) -> Seq<char>
    decreases s.len(),
{
    if word.len() > 0 && occurs_at(s, word, s.len() - word.len()) {
        trim_end_word(s.subrange(0, s.len() - word.len()), word)
    } else {
        s
    }
}

/// Whether the leftmost `needle` in `hay` is at `at` and no other follows it.
pub open spec fn splits_once(hay: Seq<char>, needle: Seq<char>, at: int) -> bool {
    &&& occurs_at(hay, needle, at)
    &&& forall|j: int| 0 <= j < at ==> !occurs_at(hay, needle, j)
    &&& forall|j: int| j >= at + needle.len() ==> !occurs_at(hay, needle, j)
}

/// The `owner/repo` part of the address of a remote: what follows
/// `git@github.com:` at the start, or what follows the one `github.com/` of
/// the address; either without `.git` at its end.
pub open spec fn slug_of(url: Seq<char>) -> Option<Seq<char>> {
    let ssh = "git@github.com:"@;
    let host = "github.com/"@;
    if occurs_at(url, ssh, 0) {
        Some(trim_end_word(url.subrange(ssh.len() as int, url.len() as int), ".git"@))
    } else if exists|at: int| splits_once(url, host, at) {
        let at = choose|at: int| splits_once(url, host, at);
        Some(trim_end_word(url.subrange(at + host.len(), url.len() as int), ".git"@))
    } else {
        None
    }
}

/// The repository that the address of a remote points at.
pub open spec fn repo_of_url(url: Seq<char>) -> Result<(Seq<char>, Seq<char>), RepoErrorModel> {
    match slug_of(url) {
        Some(slug) => match repo_of(slug) {
            Some(pair) => Ok(pair),
            None => Err(RepoErrorModel::InvalidRepo { input: slug }),
        },
        None => Err(RepoErrorModel::UnknownUrl { url }),
    }
}

/// The first position of a slash in `chars[from..]`.
fn find_slash(chars: &Vec<char>, from: usize) -> (found: Option<usize>)
    ensures
        match found {
            Some(at) => from <= at < chars.len() && chars@[at as int] == '/' && forall|j: int|
                from <= j < at ==> chars@[j] != '/',
            None => forall|j: int| from <= j < chars.len() ==> chars@[j] != '/',
        },
{
    let mut i: usize = from;
    while i < chars.len()
        invariant
            from <= i,
            forall|j: int| from <= j < i && j < chars.len() ==> chars@[j] != '/',
        decreases chars.len() - i,
    {
        if chars[i] == '/' {
            return Some(i);
        }
        i += 1;
    }
    None
}

/// Splits `chars[..end]` in the form `owner/repo`.
fn split_repo(chars: &Vec<char>, start: usize, end: usize) -> (pair: Option<(String, String)>)
    requires
        start <= end <= chars.len(),
    ensures
        match pair {
            Some((owner, name)) => repo_of(chars@.subrange(start as int, end as int)) == Some(
                (owner@, name@),
            ),
            None => repo_of(chars@.subrange(start as int, end as int)) is None,
        },
{
    let ghost s = chars@.subrange(start as int, end as int);
    match find_slash(chars, start) {
        Some(at) => {
            if at >= end {
                assert forall|k: int| !splits_at(s, k) by {
                    if 0 < k < s.len() - 1 {
                        assert(s[k] == chars@[start + k]);
                    }
                }
                return None;
            }
            let later = find_slash(chars, at + 1);
            let sole = match later {
                Some(next) => next >= end,
                None => true,
            };
            if sole && start < at && at + 1 < end {
                let owner = string_of(chars, start, at);
                let name = string_of(chars, at + 1, end);
                proof {
                    let k = at - start;
                    assert(s[k] == '/');
                    assert forall|j: int| 0 <= j < s.len() && j != k implies s[j] != '/' by {
                        assert(s[j] == chars@[start + j]);
                    }
                    assert(splits_at(s, k));
                    let chosen = choose|c: int| splits_at(s, c);
                    assert(chosen == k);
                    assert(s.subrange(0, k) == chars@.subrange(start as int, at as int));
                    assert(s.subrange(k + 1, s.len() as int) == chars@.subrange(
                        at + 1,
                        end as int,
                    ));
                }
                Some((owner, name))
            } else {
                assert forall|k: int| !splits_at(s, k) by {
                    if splits_at(s, k) {
                        assert(s[at - start] == '/');
                        if let Some(next) = later {
                            if next < end {
                                assert(s[next - start] == '/');
                            }
                        }
                    }
                }
                None
            }
        },
        None => {
            assert forall|k: int| !splits_at(s, k) by {
                if 0 < k < s.len() - 1 {
                    assert(s[k] == chars@[start + k]);
                }
            }
            None
        },
    }
}

/// The end of `chars[start..end]` without every `word` at its end.
fn trimmed_end(chars: &Vec<char>, start: usize, end: usize, word: &Vec<char>) -> (stop: usize)
    requires
        start <= end <= chars.len(),
    ensures
        start <= stop <= end,
        chars@.subrange(start as int, stop as int) == trim_end_word(
            chars@.subrange(start as int, end as int),
            word@,
        ),
{
    let mut stop: usize = end;
    if word.len() == 0 {
        return stop;
    }
    while stop - start >= word.len() && matches_at(chars, word, stop - word.len())
        invariant
            start <= stop <= end <= chars.len(),
            word.len() > 0,
            trim_end_word(chars@.subrange(start as int, stop as int), word@) == trim_end_word(
                chars@.subrange(start as int, end as int),
                word@,
            ),
        decreases stop,
    {
        proof {
            let cur = chars@.subrange(start as int, stop as int);
            let at = cur.len() - word.len();
            assert(cur.subrange(at, at + word.len()) == chars@.subrange(
                stop - word.len(),
                stop as int,
            ));
            assert(occurs_at(cur, word@, at));
            assert(cur.subrange(0, at) == chars@.subrange(start as int, stop - word.len()));
        }
        stop -= word.len();
    }
    proof {
        let cur = chars@.subrange(start as int, stop as int);
        let at = cur.len() - word.len();
        if at >= 0 {
            assert(cur.subrange(at, at + word.len()) == chars@.subrange(
                stop - word.len(),
                stop as int,
            ));
        }
        assert(!occurs_at(cur, word@, at));
    }
    stop
}

/// Reads a repository given as `owner/repo`: exactly one slash, with text on
/// both sides of it.
pub fn parse_repo(input: &str) -> (parsed: Result<(String, String), RepoError>)
    ensures
        match parsed {
            Ok((owner, name)) => repo_of(input@) == Some((owner@, name@)),
            Err(error) => repo_of(input@) is None && error@ == (RepoErrorModel::InvalidRepo {
                input: input@,
            }),
        },
{
    let chars = chars_of(input);
    proof {
        assert(chars@.subrange(0, chars.len() as int) == chars@);
    }
    match split_repo(&chars, 0, chars.len()) {
        Some(pair) => Ok(pair),
        None => Err(RepoError::InvalidRepo { input: owned(input) }),
    }
}

/// Reads the repository out of the address of a git remote, in its SSH form
/// `git@github.com:owner/repo` or with `github.com/owner/repo` in it; a
/// `.git` at the end is dropped.
pub fn parse_github_url(url: &str) -> (parsed: Result<(String, String), RepoError>)
    ensures
        match parsed {
            Ok((owner, name)) => repo_of_url(url@) == Ok::<_, RepoErrorModel>((owner@, name@)),
            Err(error) => repo_of_url(url@) == Err::<(Seq<char>, Seq<char>), _>(error@),
        },
{
    let chars = chars_of(url);
    let ssh = chars_of("git@github.com:");
    let host = chars_of("github.com/");
    let git = chars_of(".git");
    let n = chars.len();
    let start = if matches_at(&chars, &ssh, 0) {
        Some(ssh.len())
    } else {
        match find_from(&chars, &host, 0) {
            Some(at) => {
                let sole = find_from(&chars, &host, at + host.len()).is_none();
                proof {
                    if sole {
                        assert(splits_once(chars@, host@, at as int));
                        let chosen = choose|c: int| splits_once(chars@, host@, c);
                        assert(chosen == at);
                    } else {
                        assert forall|c: int| !splits_once(chars@, host@, c) by {
                            if splits_once(chars@, host@, c) {
                                assert(c == at);
                            }
                        }
                    }
                }
                if sole {
                    Some(at + host.len())
                } else {
                    None
                }
            },
            None => None,
        }
    };
    match start {
        Some(from) => {
            let stop = trimmed_end(&chars, from, n, &git);
            match split_repo(&chars, from, stop) {
                Some(pair) => Ok(pair),
                None => Err(RepoError::InvalidRepo { input: string_of(&chars, from, stop) }),
            }
        },
        None => Err(RepoError::UnknownUrl { url: owned(url) }),
    }
}

/// Whether `name` is one of the remotes that are tried first.
pub open spec fn is_well_known(name: Seq<char>) -> bool {
    name == "origin"@ || name == "upstream"@ || name == "github"@
}

/// Whether a line of a listing of remotes names a remote that is still to be
/// tried: it names one, and not one of those tried first.
pub open spec fn is_candidate(line: Seq<char>) -> bool {
    trimmed(line).len() > 0 && !is_well_known(trimmed(line))
}

/// The remotes to try after the well-known ones, given the listing of all
/// remotes: one name to a line, in the order of the listing.
pub open spec fn candidates_of(listing: Seq<char>) -> Seq<Seq<char>> {
    text_lines(listing).filter(|line: Seq<char>| is_candidate(line)).map_values(
        |line: Seq<char>| trimmed(line),
    )
}

/// The remotes that are tried first, in their order.
pub fn well_known_remotes() -> (names: Vec<&'static str>)
    ensures
        names@.len() == 3,
        names@[0]@ == "origin"@,
        names@[1]@ == "upstream"@,
        names@[2]@ == "github"@,
{
    let mut names: Vec<&'static str> = Vec::new();
    names.push("origin");
    names.push("upstream");
    names.push("github");
    names
}

/// The remotes to try after the well-known ones, read from the listing of
/// all remotes.
pub fn other_remotes(listing: &str) -> (names: Vec<String>)
    ensures
        lines_text(names@) == candidates_of(listing@),
{
    let lines = split_lines(listing);
    let ghost all = text_lines(listing@);
    let ghost keep = |line: Seq<char>| is_candidate(line);
    let ghost strip = |line: Seq<char>| trimmed(line);
    let mut names: Vec<String> = Vec::new();
    let mut i: usize = 0;
    proof {
        reveal(Seq::filter);
        assert(all.take(0).filter(keep).map_values(strip) =~= Seq::empty());
        assert(lines_text(names@) =~= Seq::empty());
    }
    while i < lines.len()
        invariant
            i <= lines.len(),
            all == lines_text(lines@),
            keep == (|line: Seq<char>| is_candidate(line)),
            strip == (|line: Seq<char>| trimmed(line)),
            lines_text(names@) == all.take(i as int).filter(keep).map_values(strip),
        decreases lines.len() - i,
    {
        let chars = chars_of(lines[i].as_str());
        let (start, end) = trim_bounds(&chars);
        let name = string_of(&chars, start, end);
        let known = spells(&chars_of(name.as_str()), "origin") || spells(
            &chars_of(name.as_str()),
            "upstream",
        ) || spells(&chars_of(name.as_str()), "github");
        proof {
            reveal(Seq::filter);
            let next = all.take(i + 1);
            assert(next.drop_last() =~= all.take(i as int));
            assert(next.last() == lines@[i as int]@);
            assert(name@ == trimmed(next.last()));
            let before = all.take(i as int).filter(keep);
            if start < end && !known {
                assert(keep(next.last()));
                assert(next.filter(keep) == before.push(next.last()));
                assert(before.push(next.last()).map_values(strip) =~= before.map_values(
                    strip,
                ).push(name@));
                assert(lines_text(names@.push(name)) =~= lines_text(names@).push(name@));
            } else {
                assert(!keep(next.last()));
                assert(next.filter(keep) == before);
            }
        }
        if start < end && !known {
            names.push(name);
        }
        i += 1;
    }
    proof {
        assert(all.take(lines.len() as int) =~= all);
    }
    names
}

/// Reads the repository out of what `git remote get-url` printed: the
/// address, with white space around it.
pub fn try_remote(output: &str) -> (parsed: Result<(String, String), RepoError>)
    ensures
        match parsed {
            Ok((owner, name)) => repo_of_url(trimmed(output@)) == Ok::<_, RepoErrorModel>(
                (owner@, name@),
            ),
            Err(error) => repo_of_url(trimmed(output@)) == Err::<(Seq<char>, Seq<char>), _>(
                error@,
            ),
        },
{
    let chars = chars_of(output);
    let (start, end) = trim_bounds(&chars);
    let url = string_of(&chars, start, end);
    parse_github_url(url.as_str())
}

} // verus!
