//! Where a clone goes: the base directory, below it a directory for the host
//! where the configuration asks for one, and below that the repository's path
//! or only its last segment.

use vstd::prelude::*;
use vstd::string::{StrSliceExecFns, StringExecFns};
use crate::configuration::{Configuration, ConfigurationView};
use crate::repository::{Repository, RepositoryView};
use crate::text::chars_of;

verus! {

/// The segments of a path: what stands between its slashes, in order, without
/// the empty ones. Slashes at the start, at the end and beside one another
/// add nothing.
///
/// Read from the left, a slash adds nothing, a character at the start or
/// behind a slash begins a segment, and every other character goes on with the
/// segment before it.
pub open spec fn segments(path: Seq<char>) -> Seq<Seq<char>>
    decreases path.len(),
{
    if path.len() == 0 {
        Seq::empty()
    } else {
        let before = segments(path.drop_last());
        if path.last() == '/' {
            before
        } else if path.len() >= 2 && path[path.len() - 2] != '/' {
            before.drop_last().push(before.last().push(path.last()))
        } else {
            before.push(seq![path.last()])
        }
    }
}

/// `dir` with `segment` below it: a slash goes between the two unless `dir` is
/// empty or ends with one.
pub open spec fn push_segment(dir: Seq<char>, segment: Seq<char>) -> Seq<char> {
    if dir.len() == 0 || dir.last() == '/' {
        dir + segment
    } else {
        dir + seq!['/'] + segment
    }
}

/// `dir` with each of `segments` below the one before it.
pub open spec fn push_all(dir: Seq<char>, segments: Seq<Seq<char>>) -> Seq<char>
    decreases segments.len(),
{
    if segments.len() == 0 {
        dir
    } else {
        push_segment(push_all(dir, segments.drop_last()), segments.last())
    }
}

/// The directory that the segments of a path go under: the base directory, or
/// the host's directory in it.
pub open spec fn root_dir(config: ConfigurationView, host: Seq<char>) -> Seq<char> {
    if config.use_host_dir {
        push_segment(config.base_dir, host)
    } else {
        config.base_dir
    }
}

/// The segments of `path` that the target directory is made of: all of them,
/// or the last one alone.
pub open spec fn kept_segments(use_full_path: bool, path: Seq<char>) -> Seq<Seq<char>> {
    let all = segments(path);
    if use_full_path || all.len() == 0 {
        all
    } else {
        seq![all.last()]
    }
}

/// The directory that a repository is cloned to.
pub open spec fn target_path(config: ConfigurationView, repo: RepositoryView) -> Seq<char> {
    push_all(root_dir(config, repo.host), kept_segments(config.use_full_path, repo.path))
}

/// A run of characters other than slashes, at the start of a path or behind a
/// slash, is one more segment.
pub proof fn lemma_segments_run(before: Seq<char>, run: Seq<char>)
    requires
        before.len() == 0 || before.last() == '/',
        run.len() > 0,
        !run.contains('/'),
    ensures
        segments(before + run) == segments(before).push(run),
    decreases run.len(),
{
    let whole = before + run;
    assert(whole.last() == run.last());
    assert(run.contains(run.last()));
    assert(whole.drop_last() =~= before + run.drop_last());
    if run.len() == 1 {
        assert(before + run.drop_last() =~= before);
        assert(run =~= seq![run.last()]);
        if whole.len() >= 2 {
            assert(whole[whole.len() - 2] == before.last());
        }
    } else {
        let shorter = run.drop_last();
        assert forall|i: int| 0 <= i < shorter.len() implies shorter[i] != '/' by {
            assert(run.contains(run[i]));
        }
        lemma_segments_run(before, shorter);
        assert(whole[whole.len() - 2] == shorter.last());
        assert(shorter.contains(shorter.last()));
        let found = segments(before).push(shorter);
        assert(found.drop_last() =~= segments(before));
        assert(shorter.push(run.last()) =~= run);
    }
}

/// A slash at the end of a path adds no segment.
pub proof fn lemma_segments_slash(before: Seq<char>)
    ensures
        segments(before.push('/')) == segments(before),
{
    assert(before.push('/').drop_last() =~= before);
}

/// No segment is empty and none holds a slash.
pub proof fn lemma_segments_ensures(path: Seq<char>)
    ensures
        forall|i: int|
            0 <= i < segments(path).len() ==> (#[trigger] segments(path)[i]).len() > 0
                && !segments(path)[i].contains('/'),
        path.len() > 0 && path.last() != '/' ==> segments(path).len() > 0,
    decreases path.len(),
{
    if path.len() > 0 {
        let shorter = path.drop_last();
        let before = segments(shorter);
        lemma_segments_ensures(shorter);
        if path.last() == '/' {
        } else if path.len() >= 2 && path[path.len() - 2] != '/' {
            assert(shorter.last() == path[path.len() - 2]);
            let grown = before.last().push(path.last());
            assert forall|c: char| grown.contains(c) implies c != '/' by {
                let i = choose|i: int| 0 <= i < grown.len() && grown[i] == c;
                if i < before.last().len() {
                    assert(before.last().contains(before.last()[i]));
                }
            }
        } else {
            let single = seq![path.last()];
            assert forall|c: char| single.contains(c) implies c != '/' by {}
        }
    }
}

/// Whatever is pushed, what comes out begins with the directory that was
/// there.
pub proof fn lemma_push_all_keeps_dir(dir: Seq<char>, segments: Seq<Seq<char>>)
    ensures
        dir.is_prefix_of(push_all(dir, segments)),
    decreases segments.len(),
{
    if segments.len() > 0 {
        lemma_push_all_keeps_dir(dir, segments.drop_last());
    }
}

/// The target directory lies under the base directory.
pub proof fn lemma_target_under_base(config: ConfigurationView, repo: RepositoryView)
    ensures
        config.base_dir.is_prefix_of(target_path(config, repo)),
{
    lemma_push_all_keeps_dir(
        root_dir(config, repo.host),
        kept_segments(config.use_full_path, repo.path),
    );
}

/// Without the full path, the target directory is made of the last segment
/// alone.
pub proof fn lemma_only_last_segment(config: ConfigurationView, repo: RepositoryView)
    requires
        !config.use_full_path,
        segments(repo.path).len() > 0,
    ensures
        target_path(config, repo) == push_segment(
            root_dir(config, repo.host),
            segments(repo.path).last(),
        ),
{
    let kept = seq![segments(repo.path).last()];
    assert(kept.drop_last() =~= Seq::<Seq<char>>::empty());
    assert(push_all(root_dir(config, repo.host), kept.drop_last()) == root_dir(
        config,
        repo.host,
    )) by {
        reveal_with_fuel(push_all, 2);
    }
}

/// Without the full path, what precedes the last segment does not matter,
/// however many segments it holds: the path `before/name` goes where the path
/// `name` goes.
pub proof fn lemma_preceding_segments_dropped(
    config: ConfigurationView,
    host: Seq<char>,
    before: Seq<char>,
    name: Seq<char>,
)
    requires
        !config.use_full_path,
        name.len() > 0,
        !name.contains('/'),
    ensures
        target_path(config, RepositoryView { host, path: before + seq!['/'] + name })
            == target_path(config, RepositoryView { host, path: name }),
{
    let slashed = before + seq!['/'];
    assert(slashed.last() == '/');
    lemma_segments_run(slashed, name);
    lemma_segments_run(Seq::empty(), name);
    assert(Seq::<char>::empty() + name =~= name);
    lemma_only_last_segment(config, RepositoryView { host, path: slashed + name });
    lemma_only_last_segment(config, RepositoryView { host, path: name });
}

/// Puts `segment` below `dir`.
fn push(dir: &mut String, segment: &str)
    ensures
        final(dir)@ == push_segment(old(dir)@, segment@),
{
    let len = dir.as_str().unicode_len();
    if len > 0 && dir.as_str().get_char(len - 1) != '/' {
        dir.append("/");
        proof {
            reveal_strlit("/");
            assert("/"@ =~= seq!['/']);
        }
    }
    dir.append(segment);
}

/// The directory that `repo` is cloned to under `config`.
///
/// It begins with the base directory. The host is one segment below it, where
/// the configuration asks for it. The segments of the repository's path
/// follow, or the last of them alone.
pub fn target_dir(repo: &Repository, config: &Configuration) -> (dir: String)
    ensures
        dir@ == target_path(config@, repo@),
        config.base_dir@.is_prefix_of(dir@),
        !config.use_full_path && segments(repo.path@).len() > 0 ==> dir@ == push_segment(
            root_dir(config@, repo.host@),
            segments(repo.path@).last(),
        ),
{
    proof {
        lemma_target_under_base(config@, repo@);
        if !config.use_full_path && segments(repo.path@).len() > 0 {
            lemma_only_last_segment(config@, repo@);
        }
    }
    let mut dir = config.base_dir.clone();
    if config.use_host_dir {
        push(&mut dir, repo.host.as_str());
    }
    let path = repo.path.as_str();
    let chars = chars_of(path);
    let n = chars.len();
    let ghost root = dir@;
    let ghost found: Seq<Seq<char>> = Seq::empty();
    let mut last: Option<(usize, usize)> = None;
    let mut i: usize = 0;
    assert(path@.take(0) =~= Seq::<char>::empty());
    while i < n
        invariant
            n == chars.len(),
            chars@ == path@,
            i <= n,
            i < n ==> i == 0 || path@[i - 1] == '/' || path@[i as int] == '/',
            found == segments(path@.take(i as int)),
            config.use_full_path ==> dir@ == push_all(root, found),
            !config.use_full_path ==> dir@ == root,
            !config.use_full_path ==> match last {
                Some((from, to)) => from <= to <= n && found.len() > 0 && found.last()
                    == path@.subrange(from as int, to as int),
                None => found.len() == 0,
            },
        decreases n - i,
    {
        if chars[i] == '/' {
            proof {
                lemma_segments_slash(path@.take(i as int));
                assert(path@.take(i + 1) =~= path@.take(i as int).push('/'));
            }
            i += 1;
        } else {
            let from = i;
            while i < n && chars[i] != '/'
                invariant
                    n == chars.len(),
                    chars@ == path@,
                    from <= i <= n,
                    forall|j: int| from <= j < i ==> path@[j] != '/',
                decreases n - i,
            {
                i += 1;
            }
            proof {
                let before = path@.take(from as int);
                let run = path@.subrange(from as int, i as int);
                assert(path@.take(i as int) =~= before + run);
                lemma_segments_run(before, run);
                found = found.push(run);
                assert(found.drop_last() =~= segments(before));
            }
            if config.use_full_path {
                push(&mut dir, path.substring_char(from, i));
            } else {
                last = Some((from, i));
            }
        }
    }
    assert(path@.take(n as int) =~= path@);
    if !config.use_full_path {
        if let Some((from, to)) = last {
            push(&mut dir, path.substring_char(from, to));
            proof {
                lemma_only_last_segment(config@, repo@);
            }
        }
    }
    dir
}

} // verus!
