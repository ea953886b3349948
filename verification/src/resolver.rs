//! The binary resolver: a state machine that decides, in strict priority
//! order, where the tool binary comes from — an explicit settings path, a
//! copy on the executable search path, a previously fetched copy that is
//! still on disk, or a fresh download of the latest release.
//!
//! The machine itself performs no I/O. `Resolution::begin` and
//! `Resolution::step` return an [`Action`] asking the host for one piece of
//! outside work; the host answers with the matching [`Event`] and steps the
//! machine again, until the action is `Finished` or `Failed`.

use vstd::pervasive::unreached;
use vstd::prelude::*;

use crate::error::InstallFault;
use crate::error::ListFault;
use crate::error::ResolveError;
use crate::platform::archive_kind;
use crate::platform::asset_name;
use crate::platform::local_binary_path;
use crate::platform::spec_archive_kind;
use crate::platform::spec_asset_name;
use crate::platform::spec_local_binary_path;
use crate::platform::spec_supported;
use crate::platform::spec_version_dir;
use crate::platform::version_dir_name;
use crate::platform::ArchiveKind;
use crate::platform::Os;
use crate::platform::PlatformKey;

verus! {

/// The binary block a host may configure for the server: an explicit path
/// and extra arguments, each independently optional.
#[derive(Clone, Debug, PartialEq, Eq)]
pub struct BinarySettings {
    pub path: Option<String>,
    pub arguments: Option<Vec<String>>,
}

/// One downloadable asset of a release.
#[derive(Clone, Debug, PartialEq, Eq)]
pub struct ReleaseAsset {
    pub name: String,
    pub download_url: String,
}

/// A release of the tool: its version and its downloadable assets.
#[derive(Clone, Debug, PartialEq, Eq)]
pub struct Release {
    pub version: String,
    pub assets: Vec<ReleaseAsset>,
}

/// A resolved binary: the path to launch, with whatever extra arguments and
/// environment the resolution attached.
#[derive(Clone, Debug, PartialEq, Eq)]
pub struct RariBinary {
    pub path: String,
    pub args: Option<Vec<String>>,
    pub environment: Option<Vec<(String, String)>>,
}

/// Process-wide bootstrap state: the path cached by a successful fetch,
/// read — and never cleared — by every later resolution.
#[derive(Clone, Debug, PartialEq, Eq)]
pub struct MDN {
    pub binary_path: Option<String>,
}

impl MDN {
    /// A fresh state with nothing cached yet.
    pub fn new() -> (r: MDN)
        ensures
            r.binary_path is None,
    {
        MDN { binary_path: None }
    }
}

/// One piece of outside work the machine asks the host for, or the outcome
/// of the resolution.
#[derive(Clone, Debug, PartialEq, Eq)]
pub enum Action {
    /// Capture the shell environment of the project root (mac and linux
    /// only). Answer with `Event::ShellEnv`.
    GetShellEnv,
    /// Read the binary block of the server's settings, if any. Answer with
    /// `Event::Settings`.
    GetSettings,
    /// Search the executable search path for the tool's canonical name.
    /// Answer with `Event::PathLookup`.
    SearchPath,
    /// Report whether `path` exists on disk as a regular file. Answer with
    /// `Event::FileStat`.
    StatFile { path: String },
    /// Query the release index for the latest release, with the given
    /// options. Answer with `Event::Release`.
    FetchLatestRelease { require_assets: bool, pre_release: bool },
    /// Report the download as in progress, fetch the archive at `url` into
    /// `directory`, unpack it as `kind`, and mark `binary_path` executable.
    /// Answer with `Event::Installed`.
    Install { url: String, directory: String, kind: ArchiveKind, binary_path: String },
    /// List the names of the top-level entries of the working directory.
    /// Answer with `Event::DirectoryList`.
    ListWorkingDirectory,
    /// Remove the named entries, best effort: individual failures are
    /// swallowed. Answer with `Event::Removed`.
    RemoveStale { entries: Vec<String> },
    /// The resolution succeeded; no further event is accepted.
    Finished { binary: RariBinary },
    /// The resolution failed; no further event is accepted.
    Failed { error: ResolveError },
}

/// The host's answer to the action the machine last requested.
#[derive(Debug, PartialEq, Eq)]
pub enum Event {
    /// The shell environment of the project root.
    ShellEnv { vars: Vec<(String, String)> },
    /// The configured binary block, or `None` where the settings are absent
    /// or unreadable — either simply falls through to the next tier.
    Settings { binary: Option<BinarySettings> },
    /// The path found on the executable search path, if any.
    PathLookup { path: Option<String> },
    /// Whether the queried path is a regular file on disk.
    FileStat { is_file: bool },
    /// The latest release, or the index's error message.
    Release { result: Result<Release, String> },
    /// Whether download, extraction and marking executable all succeeded.
    Installed { result: Result<(), InstallFault> },
    /// The entry names of the working directory, or what failed reading them.
    DirectoryList { result: Result<Vec<String>, ListFault> },
    /// The requested removals were attempted.
    Removed,
}

/// Where the machine stands: which answer it is waiting for, together with
/// the values that the next decision needs.
#[derive(Clone, Debug, PartialEq, Eq)]
pub enum Phase {
    AwaitShellEnv,
    AwaitSettings,
    AwaitPathLookup,
    AwaitCacheStat { path: String },
    AwaitRelease,
    AwaitInstalledStat { url: String, directory: String, binary_path: String },
    AwaitInstall { directory: String, binary_path: String },
    AwaitDirectoryList { directory: String, binary_path: String },
    AwaitRemoval { binary_path: String },
    Terminal,
}

/// One resolution in progress: the platform it is for, the extra arguments
/// and environment gathered so far, and the pending phase.
#[derive(Clone, Debug, PartialEq, Eq)]
pub struct Resolution {
    pub platform: PlatformKey,
    pub environment: Option<Vec<(String, String)>>,
    pub args: Option<Vec<String>>,
    pub phase: Phase,
}

/// The download URL of the first asset carrying `name`, if any.
pub open spec fn spec_find_url(assets: Seq<ReleaseAsset>, name: Seq<char>) -> Option<String>
    decreases assets.len(),
{
    if assets.len() == 0 {
        None
    } else if assets[0].name@ == name {
        Some(assets[0].download_url)
    } else {
        spec_find_url(assets.skip(1), name)
    }
}

/// Keeps an entry exactly when its name differs from `keep`.
pub open spec fn stale_pred(keep: Seq<char>) -> spec_fn(String) -> bool {
    |e: String| e@ != keep
}

/// The entries to remove during cleanup: all whose name differs from
/// `keep`, in the order they were listed.
pub open spec fn spec_stale(entries: Seq<String>, keep: Seq<char>) -> Seq<String> {
    entries.filter(stale_pred(keep))
}

/// What `Resolution::begin` returns: a machine for `platform` with nothing
/// gathered yet, asking first for the shell environment on mac and linux
/// and going straight to the settings on windows.
pub open spec fn begin_rel(platform: PlatformKey, r: Resolution, a: Action) -> bool {
    &&& r.platform == platform
    &&& r.environment is None
    &&& r.args is None
    &&& match platform.os {
        Os::Windows => r.phase is AwaitSettings && a is GetSettings,
        _ => r.phase is AwaitShellEnv && a is GetShellEnv,
    }
}

/// The machine halts with `binary` made of `path`, the arguments `args`,
/// and the environment gathered so far.
pub open spec fn finishes(
    pre: Resolution,
    post: Resolution,
    a: Action,
    path: String,
    args: Option<Vec<String>>,
) -> bool {
    &&& a == (Action::Finished {
        binary: RariBinary { path: path, args: args, environment: pre.environment },
    })
    &&& post.platform == pre.platform
    &&& post.environment is None
    &&& post.args is None
    &&& post.phase is Terminal
}

/// The machine halts reporting `error`.
pub open spec fn fails(pre: Resolution, post: Resolution, a: Action, error: ResolveError) -> bool {
    &&& a == (Action::Failed { error: error })
    &&& post.platform == pre.platform
    &&& post.environment is None
    &&& post.args is None
    &&& post.phase is Terminal
}

/// The step changed nothing but the phase.
pub open spec fn core_kept(pre: Resolution, post: Resolution) -> bool {
    &&& post.platform == pre.platform
    &&& post.environment == pre.environment
    &&& post.args == pre.args
}

/// The full transition relation of the resolver: what one step does to the
/// machine, to the cached path, and which action it returns, for every
/// phase and the event answering it.
pub open spec fn step_rel(
    pre: Resolution,
    cache0: Option<String>,
    event: Event,
    post: Resolution,
    cache1: Option<String>,
    a: Action,
) -> bool {
    match (pre.phase, event) {
        (Phase::AwaitShellEnv, Event::ShellEnv { vars }) => {
            &&& post.platform == pre.platform
            &&& post.environment == Some(vars)
            &&& post.args == pre.args
            &&& post.phase is AwaitSettings
            &&& a is GetSettings
            &&& cache1 == cache0
        },
        (Phase::AwaitSettings, Event::Settings { binary }) => {
            &&& cache1 == cache0
            &&& match binary {
                Some(b) => match b.path {
                    Some(p) => finishes(pre, post, a, p, b.arguments),
                    None => {
                        &&& post.platform == pre.platform
                        &&& post.environment == pre.environment
                        &&& post.args == b.arguments
                        &&& post.phase is AwaitPathLookup
                        &&& a is SearchPath
                    },
                },
                None => {
                    &&& core_kept(pre, post)
                    &&& post.phase is AwaitPathLookup
                    &&& a is SearchPath
                },
            }
        },
        (Phase::AwaitPathLookup, Event::PathLookup { path }) => {
            &&& cache1 == cache0
            &&& match path {
                Some(p) => finishes(pre, post, a, p, pre.args),
                None => match cache0 {
                    Some(c) => {
                        &&& core_kept(pre, post)
                        &&& a == (Action::StatFile { path: c })
                        &&& post.phase == (Phase::AwaitCacheStat { path: c })
                    },
                    None => {
                        &&& core_kept(pre, post)
                        &&& a == (Action::FetchLatestRelease {
                            require_assets: true,
                            pre_release: false,
                        })
                        &&& post.phase is AwaitRelease
                    },
                },
            }
        },
        (Phase::AwaitCacheStat { path }, Event::FileStat { is_file }) => {
            &&& cache1 == cache0
            &&& if is_file {
                finishes(pre, post, a, path, pre.args)
            } else {
                &&& core_kept(pre, post)
                &&& a == (Action::FetchLatestRelease { require_assets: true, pre_release: false })
                &&& post.phase is AwaitRelease
            }
        },
        (Phase::AwaitRelease, Event::Release { result }) => {
            &&& cache1 == cache0
            &&& match result {
                Err(m) => fails(pre, post, a, ResolveError::Fetch { message: m }),
                Ok(rel) => {
                    if !spec_supported(pre.platform) {
                        fails(pre, post, a, ResolveError::UnsupportedPlatform)
                    } else {
                        match spec_find_url(rel.assets@, spec_asset_name(pre.platform)) {
                            None => {
                                &&& a matches Action::Failed { error }
                                &&& error matches ResolveError::AssetNotFound { asset }
                                &&& asset@ == spec_asset_name(pre.platform)
                                &&& post.platform == pre.platform
                                &&& post.environment is None
                                &&& post.args is None
                                &&& post.phase is Terminal
                            },
                            Some(u) => {
                                &&& core_kept(pre, post)
                                &&& post.phase matches Phase::AwaitInstalledStat {
                                    url,
                                    directory,
                                    binary_path,
                                }
                                &&& url == u
                                &&& directory@ == spec_version_dir(rel.version@)
                                &&& binary_path@ == spec_local_binary_path(
                                    pre.platform.os,
                                    rel.version@,
                                )
                                &&& a == (Action::StatFile { path: binary_path })
                            },
                        }
                    }
                },
            }
        },
        (
            Phase::AwaitInstalledStat { url, directory, binary_path },
            Event::FileStat { is_file },
        ) => {
            if is_file {
                &&& cache1 == Some(binary_path)
                &&& finishes(pre, post, a, binary_path, pre.args)
            } else {
                &&& cache1 == cache0
                &&& core_kept(pre, post)
                &&& a == (Action::Install {
                    url: url,
                    directory: directory,
                    kind: spec_archive_kind(pre.platform.os),
                    binary_path: binary_path,
                })
                &&& post.phase == (Phase::AwaitInstall {
                    directory: directory,
                    binary_path: binary_path,
                })
            }
        },
        (Phase::AwaitInstall { directory, binary_path }, Event::Installed { result }) => {
            &&& cache1 == cache0
            &&& match result {
                Err(f) => match f {
                    InstallFault::Download { message } => fails(
                        pre,
                        post,
                        a,
                        ResolveError::Download { message },
                    ),
                    InstallFault::Permission { message } => fails(
                        pre,
                        post,
                        a,
                        ResolveError::Permission { message },
                    ),
                },
                Ok(_) => {
                    &&& core_kept(pre, post)
                    &&& a is ListWorkingDirectory
                    &&& post.phase == (Phase::AwaitDirectoryList {
                        directory: directory,
                        binary_path: binary_path,
                    })
                },
            }
        },
        (Phase::AwaitDirectoryList { directory, binary_path }, Event::DirectoryList { result }) => {
            &&& cache1 == cache0
            &&& match result {
                Err(f) => match f {
                    ListFault::List { message } => fails(
                        pre,
                        post,
                        a,
                        ResolveError::DirectoryList { message },
                    ),
                    ListFault::Entry { message } => fails(
                        pre,
                        post,
                        a,
                        ResolveError::DirectoryEntry { message },
                    ),
                },
                Ok(entries) => {
                    &&& core_kept(pre, post)
                    &&& a matches Action::RemoveStale { entries: stale }
                    &&& stale@ == spec_stale(entries@, directory@)
                    &&& post.phase == (Phase::AwaitRemoval { binary_path: binary_path })
                },
            }
        },
        (Phase::AwaitRemoval { binary_path }, Event::Removed) => {
            &&& cache1 == Some(binary_path)
            &&& finishes(pre, post, a, binary_path, pre.args)
        },
        _ => false,
    }
}

impl Resolution {
    /// Whether `event` answers the action the machine is waiting on. A
    /// terminal machine accepts nothing.
    pub open spec fn accepts(self, event: Event) -> bool {
        match (self.phase, event) {
            (Phase::AwaitShellEnv, Event::ShellEnv { .. }) => true,
            (Phase::AwaitSettings, Event::Settings { .. }) => true,
            (Phase::AwaitPathLookup, Event::PathLookup { .. }) => true,
            (Phase::AwaitCacheStat { .. }, Event::FileStat { .. }) => true,
            (Phase::AwaitRelease, Event::Release { .. }) => true,
            (Phase::AwaitInstalledStat { .. }, Event::FileStat { .. }) => true,
            (Phase::AwaitInstall { .. }, Event::Installed { .. }) => true,
            (Phase::AwaitDirectoryList { .. }, Event::DirectoryList { .. }) => true,
            (Phase::AwaitRemoval { .. }, Event::Removed) => true,
            _ => false,
        }
    }

    /// Starts a resolution for `platform` and returns the first request:
    /// the shell environment on mac and linux, the settings on windows,
    /// where no shell environment is ever captured.
    pub fn begin(platform: PlatformKey) -> (r: (Resolution, Action))
        ensures
            begin_rel(platform, r.0, r.1),
    {
        match platform.os {
            Os::Windows => (
                Resolution {
                    platform,
                    environment: None,
                    args: None,
                    phase: Phase::AwaitSettings,
                },
                Action::GetSettings,
            ),
            _ => (
                Resolution {
                    platform,
                    environment: None,
                    args: None,
                    phase: Phase::AwaitShellEnv,
                },
                Action::GetShellEnv,
            ),
        }
    }

    /// Feeds the machine the answer to its pending request and returns the
    /// advanced machine with its next request. The whole behaviour — which
    /// tier wins, what is downloaded, what is cleaned up, and when the
    /// cached path in `state` is written — is pinned by [`step_rel`].
    pub fn step(self, state: &mut MDN, event: Event) -> (r: (Resolution, Action))
        requires
            self.accepts(event),
        ensures
            step_rel(self, old(state).binary_path, event, r.0, final(state).binary_path, r.1),
    {
        let Resolution { platform, environment, args, phase } = self;
        match (phase, event) {
            (Phase::AwaitShellEnv, Event::ShellEnv { vars }) => (
                Resolution {
                    platform,
                    environment: Some(vars),
                    args,
                    phase: Phase::AwaitSettings,
                },
                Action::GetSettings,
            ),
            (Phase::AwaitSettings, Event::Settings { binary }) => match binary {
                Some(b) => match b.path {
                    Some(p) => (
                        Resolution {
                            platform,
                            environment: None,
                            args: None,
                            phase: Phase::Terminal,
                        },
                        Action::Finished {
                            binary: RariBinary { path: p, args: b.arguments, environment },
                        },
                    ),
                    None => (
                        Resolution {
                            platform,
                            environment,
                            args: b.arguments,
                            phase: Phase::AwaitPathLookup,
                        },
                        Action::SearchPath,
                    ),
                },
                None => (
                    Resolution { platform, environment, args, phase: Phase::AwaitPathLookup },
                    Action::SearchPath,
                ),
            },
            (Phase::AwaitPathLookup, Event::PathLookup { path }) => match path {
                Some(p) => (
                    Resolution { platform, environment: None, args: None, phase: Phase::Terminal },
                    Action::Finished { binary: RariBinary { path: p, args, environment } },
                ),
                None => match &state.binary_path {
                    Some(c) => {
                        let pending = c.clone();
                        let queried = c.clone();
                        (
                            Resolution {
                                platform,
                                environment,
                                args,
                                phase: Phase::AwaitCacheStat { path: pending },
                            },
                            Action::StatFile { path: queried },
                        )
                    },
                    None => (
                        Resolution { platform, environment, args, phase: Phase::AwaitRelease },
                        Action::FetchLatestRelease { require_assets: true, pre_release: false },
                    ),
                },
            },
            (Phase::AwaitCacheStat { path }, Event::FileStat { is_file }) => {
                if is_file {
                    (
                        Resolution {
                            platform,
                            environment: None,
                            args: None,
                            phase: Phase::Terminal,
                        },
                        Action::Finished { binary: RariBinary { path, args, environment } },
                    )
                } else {
                    (
                        Resolution { platform, environment, args, phase: Phase::AwaitRelease },
                        Action::FetchLatestRelease { require_assets: true, pre_release: false },
                    )
                }
            },
            (Phase::AwaitRelease, Event::Release { result }) => match result {
                Err(m) => (
                    Resolution { platform, environment: None, args: None, phase: Phase::Terminal },
                    Action::Failed { error: ResolveError::Fetch { message: m } },
                ),
                Ok(rel) => match asset_name(platform) {
                    Err(e) => (
                        Resolution {
                            platform,
                            environment: None,
                            args: None,
                            phase: Phase::Terminal,
                        },
                        Action::Failed { error: e },
                    ),
                    Ok(name) => match find_asset_url(&rel.assets, &name) {
                        None => (
                            Resolution {
                                platform,
                                environment: None,
                                args: None,
                                phase: Phase::Terminal,
                            },
                            Action::Failed { error: ResolveError::AssetNotFound { asset: name } },
                        ),
                        Some(url) => {
                            let directory = version_dir_name(&rel.version);
                            let binary_path = local_binary_path(platform.os, &rel.version);
                            let queried = binary_path.clone();
                            (
                                Resolution {
                                    platform,
                                    environment,
                                    args,
                                    phase: Phase::AwaitInstalledStat {
                                        url,
                                        directory,
                                        binary_path,
                                    },
                                },
                                Action::StatFile { path: queried },
                            )
                        },
                    },
                },
            },
            (
                Phase::AwaitInstalledStat { url, directory, binary_path },
                Event::FileStat { is_file },
            ) => {
                if is_file {
                    state.binary_path = Some(binary_path.clone());
                    (
                        Resolution {
                            platform,
                            environment: None,
                            args: None,
                            phase: Phase::Terminal,
                        },
                        Action::Finished {
                            binary: RariBinary { path: binary_path, args, environment },
                        },
                    )
                } else {
                    let kind = archive_kind(platform.os);
                    let pending_dir = directory.clone();
                    let pending_bin = binary_path.clone();
                    (
                        Resolution {
                            platform,
                            environment,
                            args,
                            phase: Phase::AwaitInstall {
                                directory: pending_dir,
                                binary_path: pending_bin,
                            },
                        },
                        Action::Install { url, directory, kind, binary_path },
                    )
                }
            },
            (Phase::AwaitInstall { directory, binary_path }, Event::Installed { result }) => {
                match result {
                    Err(f) => match f {
                        InstallFault::Download { message } => (
                            Resolution {
                                platform,
                                environment: None,
                                args: None,
                                phase: Phase::Terminal,
                            },
                            Action::Failed { error: ResolveError::Download { message } },
                        ),
                        InstallFault::Permission { message } => (
                            Resolution {
                                platform,
                                environment: None,
                                args: None,
                                phase: Phase::Terminal,
                            },
                            Action::Failed { error: ResolveError::Permission { message } },
                        ),
                    },
                    Ok(_) => (
                        Resolution {
                            platform,
                            environment,
                            args,
                            phase: Phase::AwaitDirectoryList { directory, binary_path },
                        },
                        Action::ListWorkingDirectory,
                    ),
                }
            },
            (
                Phase::AwaitDirectoryList { directory, binary_path },
                Event::DirectoryList { result },
            ) => match result {
                Err(f) => match f {
                    ListFault::List { message } => (
                        Resolution {
                            platform,
                            environment: None,
                            args: None,
                            phase: Phase::Terminal,
                        },
                        Action::Failed { error: ResolveError::DirectoryList { message } },
                    ),
                    ListFault::Entry { message } => (
                        Resolution {
                            platform,
                            environment: None,
                            args: None,
                            phase: Phase::Terminal,
                        },
                        Action::Failed { error: ResolveError::DirectoryEntry { message } },
                    ),
                },
                Ok(entries) => {
                    let stale = stale_entries(&entries, &directory);
                    (
                        Resolution {
                            platform,
                            environment,
                            args,
                            phase: Phase::AwaitRemoval { binary_path },
                        },
                        Action::RemoveStale { entries: stale },
                    )
                },
            },
            (Phase::AwaitRemoval { binary_path }, Event::Removed) => {
                state.binary_path = Some(binary_path.clone());
                (
                    Resolution { platform, environment: None, args: None, phase: Phase::Terminal },
                    Action::Finished { binary: RariBinary { path: binary_path, args, environment } },
                )
            },
            _ => unreached(),
        }
    }
}

/// Walks the assets in order and returns the download URL of the first one
/// carrying `name`.
fn find_asset_url(assets: &Vec<ReleaseAsset>, name: &String) -> (r: Option<String>)
    ensures
        r == spec_find_url(assets@, name@),
{
    let n = assets.len();
    let mut i: usize = 0;
    proof {
        assert(assets@.skip(0) =~= assets@);
    }
    while i < n
        invariant
            n == assets@.len(),
            0 <= i <= n,
            spec_find_url(assets@, name@) == spec_find_url(assets@.skip(i as int), name@),
        decreases n - i,
    {
        if assets[i].name == *name {
            proof {
                assert(assets@.skip(i as int)[0] == assets@[i as int]);
            }
            return Some(assets[i].download_url.clone());
        }
        proof {
            assert(assets@.skip(i as int)[0] == assets@[i as int]);
            assert(assets@.skip(i as int).skip(1) =~= assets@.skip(i as int + 1));
        }
        i = i + 1;
    }
    proof {
        assert(assets@.skip(i as int) =~= Seq::<ReleaseAsset>::empty());
    }
    None
}

/// Collects, in listing order, every entry whose name differs from `keep`:
/// the stale installations that cleanup removes.
fn stale_entries(entries: &Vec<String>, keep: &String) -> (r: Vec<String>)
    ensures
        r@ == spec_stale(entries@, keep@),
{
    let n = entries.len();
    let mut out: Vec<String> = Vec::new();
    let mut i: usize = 0;
    proof {
        reveal(Seq::filter);
        assert(entries@.take(0) =~= Seq::<String>::empty());
    }
    while i < n
        invariant
            n == entries@.len(),
            0 <= i <= n,
            out@ == spec_stale(entries@.take(i as int), keep@),
        decreases n - i,
    {
        proof {
            reveal(Seq::filter);
            assert(entries@.take(i as int + 1).drop_last() =~= entries@.take(i as int));
            assert(entries@.take(i as int + 1).last() == entries@[i as int]);
        }
        if !(entries[i] == *keep) {
            out.push(entries[i].clone());
        }
        i = i + 1;
    }
    proof {
        assert(entries@.take(n as int) =~= entries@);
    }
    out
}

} // verus!
