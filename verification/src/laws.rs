//! The laws of the resolver, proved over its transition relation: the
//! priority of an explicit settings path, the reuse of a cached binary
//! without any network work, the exactness of the cleanup pass, the
//! propagation of the shell environment, and the persistence of the cache.

use vstd::prelude::*;

use crate::resolver::begin_rel;
use crate::resolver::spec_stale;
use crate::resolver::stale_pred;
use crate::resolver::step_rel;
use crate::resolver::Action;
use crate::resolver::BinarySettings;
use crate::resolver::Event;
use crate::resolver::Phase;
use crate::resolver::RariBinary;
use crate::resolver::Resolution;

verus! {

/// An explicitly configured path wins outright: the resolution finishes at
/// once with that path and the configured arguments, the cache is left
/// alone, and the machine accepts no further event — so no search of PATH,
/// no cache check and no release query can ever follow.
pub proof fn lemma_settings_path_first(
    pre: Resolution,
    cache0: Option<String>,
    b: BinarySettings,
    p: String,
    post: Resolution,
    cache1: Option<String>,
    a: Action,
)
    requires
        pre.phase is AwaitSettings,
        b.path == Some(p),
        step_rel(pre, cache0, Event::Settings { binary: Some(b) }, post, cache1, a),
    ensures
        a == (Action::Finished {
            binary: RariBinary { path: p, args: b.arguments, environment: pre.environment },
        }),
        post.phase is Terminal,
        cache1 == cache0,
        forall|e: Event| !post.accepts(e),
{
}

/// A previously fetched binary that is still on disk is reused: when the
/// settings carry no path and PATH has no entry, the machine checks exactly
/// one file — the cached path — and finishes with it. No release query and
/// no install is ever requested, and the cache is unchanged.
pub proof fn lemma_cached_binary_reused(
    s0: Resolution,
    cache: Option<String>,
    p: String,
    settings: Option<BinarySettings>,
    s1: Resolution,
    c1: Option<String>,
    a1: Action,
    s2: Resolution,
    c2: Option<String>,
    a2: Action,
    s3: Resolution,
    c3: Option<String>,
    a3: Action,
)
    requires
        s0.phase is AwaitSettings,
        cache == Some(p),
        settings matches Some(b) ==> b.path is None,
        step_rel(s0, cache, Event::Settings { binary: settings }, s1, c1, a1),
        step_rel(s1, c1, Event::PathLookup { path: None }, s2, c2, a2),
        step_rel(s2, c2, Event::FileStat { is_file: true }, s3, c3, a3),
    ensures
        a1 is SearchPath,
        a2 == (Action::StatFile { path: p }),
        a3 matches Action::Finished { binary } && binary.path == p,
        c3 == Some(p),
        s3.phase is Terminal,
{
}

/// The cleanup pass after a fresh install removes exactly the entries of
/// the working directory whose name differs from the new version directory:
/// every such entry is asked to be removed, nothing named like the version
/// directory is, and every removal was listed.
pub proof fn lemma_cleanup_exact(
    pre: Resolution,
    cache0: Option<String>,
    directory: String,
    binary_path: String,
    entries: Vec<String>,
    post: Resolution,
    cache1: Option<String>,
    a: Action,
)
    requires
        pre.phase == (Phase::AwaitDirectoryList {
            directory: directory,
            binary_path: binary_path,
        }),
        step_rel(pre, cache0, Event::DirectoryList { result: Ok(entries) }, post, cache1, a),
    ensures
        cache1 == cache0,
        a matches Action::RemoveStale { entries: stale } && {
            &&& forall|i: int|
                0 <= i < entries@.len() && (#[trigger] entries@[i])@ != directory@
                    ==> stale@.contains(entries@[i])
            &&& forall|j: int|
                0 <= j < stale@.len()
                    ==> (#[trigger] stale@[j])@ != directory@ && entries@.contains(stale@[j])
        },
{
    let stale = spec_stale(entries@, directory@);
    let pred = stale_pred(directory@);
    assert forall|i: int|
        0 <= i < entries@.len() && (#[trigger] entries@[i])@ != directory@ implies stale.contains(
        entries@[i],
    ) by {
        assert(pred(entries@[i]));
        entries@.lemma_filter_contains(pred, i);
    }
    assert forall|j: int| 0 <= j < stale.len() implies (#[trigger] stale[j])@ != directory@
        && entries@.contains(stale[j]) by {
        entries@.lemma_filter_pred(pred, j);
        lemma_stale_subset(entries@, directory@);
    }
}

/// Everything the cleanup keeps comes from the listing itself.
proof fn lemma_stale_subset(entries: Seq<String>, keep: Seq<char>)
    ensures
        forall|j: int|
            0 <= j < spec_stale(entries, keep).len() ==> entries.contains(
                #[trigger] spec_stale(entries, keep)[j],
            ),
    decreases entries.len(),
{
    reveal(Seq::filter);
    if entries.len() != 0 {
        let prefix = entries.drop_last();
        lemma_stale_subset(prefix, keep);
        let sub = spec_stale(prefix, keep);
        let out = spec_stale(entries, keep);
        assert forall|j: int| 0 <= j < out.len() implies entries.contains(out[j]) by {
            if stale_pred(keep)(entries.last()) && j == out.len() - 1 {
                assert(entries[entries.len() - 1] == entries.last());
                assert(out[j] == entries.last());
            } else {
                assert(out[j] == sub[j]);
                assert(prefix.contains(sub[j]));
                let k = choose|k: int| 0 <= k < prefix.len() && prefix[k] == sub[j];
                assert(entries[k] == sub[j]);
            }
        }
    }
}

/// On a windows platform the machine never asks for a shell environment
/// and never holds one.
pub open spec fn windows_env_invariant(r: Resolution) -> bool {
    r.platform.os is Windows ==> (r.environment is None && r.phase !is AwaitShellEnv)
}

/// A resolution begun on windows starts within the invariant: no shell
/// environment is requested or held.
pub proof fn lemma_windows_begin(platform: crate::platform::PlatformKey, r: Resolution, a: Action)
    requires
        begin_rel(platform, r, a),
    ensures
        windows_env_invariant(r),
{
}

/// On windows the resolver attaches no environment to any binary it
/// produces: every step keeps the invariant, and a finished binary carries
/// none. Host-level variables may still be added downstream.
pub proof fn lemma_windows_env_empty(
    pre: Resolution,
    cache0: Option<String>,
    event: Event,
    post: Resolution,
    cache1: Option<String>,
    a: Action,
)
    requires
        windows_env_invariant(pre),
        step_rel(pre, cache0, event, post, cache1, a),
    ensures
        windows_env_invariant(post),
        pre.platform.os is Windows ==> (a matches Action::Finished { binary }
            ==> binary.environment is None),
{
}

/// Capturing the shell environment: the first event on mac and linux hands
/// the machine the reported variables, which it holds from then on.
pub proof fn lemma_shell_env_captured(
    pre: Resolution,
    cache0: Option<String>,
    vars: Vec<(String, String)>,
    post: Resolution,
    cache1: Option<String>,
    a: Action,
)
    requires
        pre.phase is AwaitShellEnv,
        step_rel(pre, cache0, Event::ShellEnv { vars: vars }, post, cache1, a),
    ensures
        post.environment == Some(vars),
        post.phase is AwaitSettings,
        cache1 == cache0,
{
}

/// The captured shell environment rides along unchanged, whichever tier
/// produces the binary: a machine holding `Some(vars)` still holds it after
/// any non-final step, and a finished binary carries exactly those
/// variables — non-empty whenever the reported environment was.
pub proof fn lemma_shell_env_attached(
    pre: Resolution,
    cache0: Option<String>,
    event: Event,
    post: Resolution,
    cache1: Option<String>,
    a: Action,
    vars: Vec<(String, String)>,
)
    requires
        pre.environment == Some(vars),
        pre.phase !is AwaitShellEnv,
        step_rel(pre, cache0, event, post, cache1, a),
    ensures
        a matches Action::Finished { binary } ==> binary.environment == Some(vars),
        post.phase !is Terminal ==> post.environment == Some(vars) && post.phase !is AwaitShellEnv,
{
}

/// The cached path is never cleared: once a fetch has set it, every later
/// step either keeps it or overwrites it with a newly installed path.
pub proof fn lemma_cache_never_cleared(
    pre: Resolution,
    cache0: Option<String>,
    event: Event,
    post: Resolution,
    cache1: Option<String>,
    a: Action,
)
    requires
        step_rel(pre, cache0, event, post, cache1, a),
    ensures
        cache0 is Some ==> cache1 is Some,
{
}

} // verus!
