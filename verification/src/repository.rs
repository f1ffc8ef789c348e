//! Remote references: `host:path`, with or without a scheme and a user in
//! front, and with or without `.git` at the end.

use vstd::prelude::*;
use vstd::slice::slice_subrange;
use vstd::string::StrSliceExecFns;
use crate::errors::{JCloneError, JCloneResult, ParseError};
use crate::text::{
    after_last, chars_of, contains_pattern, ends_with, find, first_occurrence, index_of,
    last_index_of, leading, lemma_first_occurrence, lemma_index_of_first_is,
    lemma_trim_start_ensures, occurs_at, strip_suffix, trim_start,
};

verus! {

/// The host that a remote lives on and the path of the repository there.
#[derive(Debug, PartialEq)]
pub struct Repository {
    pub host: String,
    pub path: String,
}

/// A `Repository` as two sequences of characters.
pub struct RepositoryView {
    pub host: Seq<char>,
    pub path: Seq<char>,
}

impl View for Repository {
    type V = RepositoryView;

    open spec fn view(&self) -> RepositoryView {
        RepositoryView { host: self.host@, path: self.path@ }
    }
}

/// What ends a scheme: `://`.
pub open spec fn scheme_separator() -> Seq<char> {
    seq![':', '/', '/']
}

/// The ending that a path is written with or without: `.git`.
pub open spec fn git_suffix() -> Seq<char> {
    seq!['.', 'g', 'i', 't']
}

/// `raw` without its scheme: what stands behind the first `://`, or all of
/// `raw` where there is none.
pub open spec fn without_scheme(raw: Seq<char>) -> Seq<char> {
    match first_occurrence(raw, scheme_separator()) {
        Some(i) => raw.skip(i + 3),
        None => raw,
    }
}

/// The host in what stands before the colon: the part behind the last `@`.
pub open spec fn host_of(prefix: Seq<char>) -> Seq<char> {
    after_last(prefix, '@')
}

/// The path in what stands behind the colon: without the slashes it begins
/// with, and without one `.git` at its end.
pub open spec fn path_of(suffix: Seq<char>) -> Seq<char> {
    strip_suffix(trim_start(suffix, '/'), git_suffix())
}

/// What a remote reference stands for, or why it is refused.
///
/// The scheme is dropped, and the rest is split at its first colon. Both parts
/// must hold something, and the first must hold no `/`.
pub open spec fn parse(raw: Seq<char>) -> Result<RepositoryView, ParseError> {
    let rest = without_scheme(raw);
    match rest.index_of_first(':') {
        None => Err(ParseError::UnexpectedFormat),
        Some(colon) => {
            let prefix = rest.take(colon);
            let suffix = rest.skip(colon + 1);
            if prefix.len() == 0 || suffix.len() == 0 {
                Err(ParseError::UnexpectedFormat)
            } else if prefix.contains('/') {
                Err(ParseError::LooksLikeLocalPath)
            } else {
                Ok(RepositoryView { host: host_of(prefix), path: path_of(suffix) })
            }
        },
    }
}

/// `host`, a colon and `path`, written as one reference.
pub open spec fn joined(host: Seq<char>, path: Seq<char>) -> Seq<char> {
    host + seq![':'] + path
}

/// Whether `c` stands in `s`.
fn holds(s: &[char], c: char) -> (found: bool)
    ensures
        found == s@.contains(c),
{
    let at = index_of(s, c);
    proof {
        s@.index_of_first_ensures(c);
    }
    at.is_some()
}

/// Where `raw` goes on behind its scheme.
fn scheme_end(raw: &[char]) -> (start: usize)
    ensures
        start <= raw@.len(),
        raw@.skip(start as int) == without_scheme(raw@),
{
    let separator: [char; 3] = [':', '/', '/'];
    assert(separator@ =~= scheme_separator());
    let found = find(raw, separator.as_slice());
    proof {
        lemma_first_occurrence(raw@, scheme_separator());
    }
    match found {
        Some(i) => {
            assert(i + 3 <= raw.len());
            i + 3
        },
        None => {
            assert(raw@.skip(0) =~= raw@);
            0
        },
    }
}

/// Where the host begins in what stands before the colon.
fn host_start(prefix: &[char]) -> (start: usize)
    ensures
        start <= prefix@.len(),
        prefix@.skip(start as int) == host_of(prefix@),
{
    let found = last_index_of(prefix, '@');
    proof {
        prefix@.index_of_last_ensures('@');
    }
    match found {
        Some(at) => {
            assert(at < prefix.len());
            at + 1
        },
        None => {
            assert(prefix@.skip(0) =~= prefix@);
            0
        },
    }
}

/// Where the path begins and ends in what stands behind the colon.
fn path_bounds(suffix: &[char]) -> (bounds: (usize, usize))
    ensures
        bounds.0 <= bounds.1 <= suffix@.len(),
        suffix@.subrange(bounds.0 as int, bounds.1 as int) == path_of(suffix@),
{
    let slashes = leading(suffix, '/');
    let trimmed = slice_subrange(suffix, slashes, suffix.len());
    assert(trimmed@ =~= trim_start(suffix@, '/'));
    let ending: [char; 4] = ['.', 'g', 'i', 't'];
    assert(ending@ =~= git_suffix());
    let end: usize = if ends_with(trimmed, ending.as_slice()) {
        suffix.len() - 4
    } else {
        suffix.len()
    };
    assert(suffix@.subrange(slashes as int, end as int) =~= path_of(suffix@));
    (slashes, end)
}

impl Repository {
    /// Reads a remote reference.
    ///
    /// The result is that of `parse`. In particular a reference without a
    /// colon is refused as `UnexpectedFormat`, and the path of a reference
    /// that is accepted never begins with a slash.
    pub fn try_from(repo_str: &String) -> (result: JCloneResult<Repository>)
        ensures
            match parse(repo_str@) {
                Ok(reference) => result is Ok && result->Ok_0@ == reference,
                Err(kind) => result == Err::<Repository, JCloneError>(
                    JCloneError::RepositoryParse(kind),
                ),
            },
            !repo_str@.contains(':') ==> result == Err::<Repository, JCloneError>(
                JCloneError::RepositoryParse(ParseError::UnexpectedFormat),
            ),
            result matches Ok(repository) ==> repository.path@.len() == 0 || repository.path@[0]
                != '/',
    {
        proof {
            if !repo_str@.contains(':') {
                lemma_no_colon_is_unexpected(repo_str@);
            }
            lemma_parse_ensures(repo_str@);
        }
        let raw = repo_str.as_str();
        let chars = chars_of(raw);
        let all = chars.as_slice();
        let start = scheme_end(all);
        let rest = slice_subrange(all, start, all.len());
        assert(rest@ =~= without_scheme(repo_str@));
        let colon: usize = match index_of(rest, ':') {
            Some(colon) => colon,
            None => {
                return Err(JCloneError::RepositoryParse(ParseError::UnexpectedFormat));
            },
        };
        proof {
            rest@.index_of_first_ensures(':');
        }
        let prefix = slice_subrange(rest, 0, colon);
        let suffix = slice_subrange(rest, colon + 1, rest.len());
        assert(prefix@ =~= rest@.take(colon as int));
        assert(suffix@ =~= rest@.skip(colon + 1));
        if prefix.len() == 0 || suffix.len() == 0 {
            return Err(JCloneError::RepositoryParse(ParseError::UnexpectedFormat));
        }
        if holds(prefix, '/') {
            return Err(JCloneError::RepositoryParse(ParseError::LooksLikeLocalPath));
        }
        let host_from = start + host_start(prefix);
        let (path_from, path_to) = path_bounds(suffix);
        let behind_colon = start + colon + 1;
        let host = raw.substring_char(host_from, start + colon);
        let path = raw.substring_char(behind_colon + path_from, behind_colon + path_to);
        assert(host@ =~= prefix@.skip(host_from - start));
        assert(path@ =~= suffix@.subrange(path_from as int, path_to as int));
        Ok(Repository { host: host.to_owned(), path: path.to_owned() })
    }
}

/// A reference that holds no colon is refused as `UnexpectedFormat`, whatever
/// else it holds.
pub proof fn lemma_no_colon_is_unexpected(raw: Seq<char>)
    requires
        !raw.contains(':'),
    ensures
        parse(raw) == Err::<RepositoryView, ParseError>(ParseError::UnexpectedFormat),
{
    let rest = without_scheme(raw);
    lemma_first_occurrence(raw, scheme_separator());
    rest.index_of_first_ensures(':');
    if rest.contains(':') {
        let i = choose|i: int| 0 <= i < rest.len() && rest[i] == ':';
        if first_occurrence(raw, scheme_separator()) is Some {
            let at = first_occurrence(raw, scheme_separator())->Some_0;
            assert(raw[at + 3 + i] == ':');
        }
        assert(raw.contains(':'));
    }
}

/// What holds of every reference that is accepted: the host holds no colon,
/// no slash and no `@`, and the path does not begin with a slash.
pub proof fn lemma_parse_ensures(raw: Seq<char>)
    ensures
        parse(raw) matches Ok(reference) ==> {
            &&& !reference.host.contains(':')
            &&& !reference.host.contains('/')
            &&& !reference.host.contains('@')
            &&& reference.path.len() == 0 || reference.path[0] != '/'
        },
{
    let rest = without_scheme(raw);
    rest.index_of_first_ensures(':');
    if parse(raw) is Ok {
        let colon = rest.index_of_first(':')->Some_0;
        let prefix = rest.take(colon);
        let suffix = rest.skip(colon + 1);
        let host = host_of(prefix);
        prefix.index_of_last_ensures('@');
        let shift: int = match prefix.index_of_last('@') {
            Some(at) => at + 1,
            None => 0,
        };
        assert(host =~= prefix.skip(shift));
        assert forall|c: char| host.contains(c) implies prefix.contains(c) by {
            let i = choose|i: int| 0 <= i < host.len() && host[i] == c;
            assert(prefix[shift + i] == c);
        }
        if host.contains(':') {
            let i = choose|i: int| 0 <= i < prefix.len() && prefix[i] == ':';
            assert(rest[i] == ':');
        }
        if host.contains('@') {
            let i = choose|i: int| 0 <= i < host.len() && host[i] == '@';
            assert(prefix[shift + i] == '@');
        }
        lemma_trim_start_ensures(suffix, '/');
    }
}

/// Reading is idempotent: the host and the path that were read from a
/// reference, written as `host:path` and read again, come back unchanged.
///
/// This holds where both hold something and the path neither ends with `.git`
/// nor holds `://`; a reference written from any other pair reads differently.
pub proof fn lemma_parse_idempotent(raw: Seq<char>)
    requires
        parse(raw) is Ok,
        parse(raw)->Ok_0.host.len() > 0,
        parse(raw)->Ok_0.path.len() > 0,
        !git_suffix().is_suffix_of(parse(raw)->Ok_0.path),
        !contains_pattern(parse(raw)->Ok_0.path, scheme_separator()),
    ensures
        parse(joined(parse(raw)->Ok_0.host, parse(raw)->Ok_0.path)) == parse(raw),
{
    let host = parse(raw)->Ok_0.host;
    let path = parse(raw)->Ok_0.path;
    let again = joined(host, path);
    let colon = host.len() as int;
    lemma_parse_ensures(raw);
    assert forall|i: int| 0 <= i < colon implies again[i] == host[i] by {}
    assert forall|i: int| 0 <= i < path.len() implies again[colon + 1 + i] == path[i] by {}
    assert(again[colon] == ':');

    assert forall|i: int| !occurs_at(again, scheme_separator(), i) by {
        if occurs_at(again, scheme_separator(), i) {
            let found = again.subrange(i, i + 3);
            assert(found[0] == ':' && found[1] == '/' && found[2] == '/');
            if i < colon {
                assert(host[i] == ':');
            } else if i == colon {
                assert(path[0] == again[colon + 1]);
            } else {
                let at = i - colon - 1;
                assert(path.subrange(at, at + 3) =~= found);
                assert(occurs_at(path, scheme_separator(), at));
            }
        }
    }
    lemma_first_occurrence(again, scheme_separator());
    assert(without_scheme(again) == again);

    assert forall|j: int| 0 <= j < colon implies again[j] != ':' by {
        if again[j] == ':' {
            assert(host[j] == ':');
        }
    }
    lemma_index_of_first_is(again, ':', colon);
    let prefix = again.take(colon);
    let suffix = again.skip(colon + 1);
    assert(prefix =~= host);
    assert(suffix =~= path);

    host.index_of_last_ensures('@');
    assert(host_of(host) == host);
    lemma_trim_start_ensures(path, '/');
    assert(path_of(path) == path);
}

} // verus!
