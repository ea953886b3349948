//! The release asset selector: a pure mapping from the host platform to the
//! expected remote archive name and the local, version-qualified path of the
//! extracted executable.

use vstd::prelude::*;

verus! {

/// Operating system of the host, as far as asset selection cares.
#[derive(Clone, Copy, Debug, PartialEq, Eq)]
pub enum Os {
    Mac,
    Linux,
    Windows,
}

/// CPU architecture of the host. `X86` is never supported: resolving on it
/// always fails.
#[derive(Clone, Copy, Debug, PartialEq, Eq)]
pub enum Arch {
    Aarch64,
    X86,
    X8664,
}

/// The (operating system, architecture) pair that picks the asset variant.
#[derive(Clone, Copy, Debug, PartialEq, Eq)]
pub struct PlatformKey {
    pub os: Os,
    pub arch: Arch,
}

/// How a downloaded archive is packed: gzipped tar on mac and linux, zip on
/// windows.
#[derive(Clone, Copy, Debug, PartialEq, Eq)]
pub enum ArchiveKind {
    GzipTar,
    Zip,
}

/// A platform is supported exactly when its architecture is not `X86`.
pub open spec fn spec_supported(key: PlatformKey) -> bool {
    key.arch !is X86
}

/// The exact archive name expected in a release for a supported platform.
pub open spec fn spec_asset_name(key: PlatformKey) -> Seq<char>
    recommends
        spec_supported(key),
{
    match (key.arch, key.os) {
        (Arch::Aarch64, Os::Mac) => "rari-aarch64-apple-darwin.tar.gz"@,
        (Arch::Aarch64, Os::Linux) => "rari-aarch64-unknown-linux-musl.tar.gz"@,
        (Arch::Aarch64, Os::Windows) => "rari-aarch64-pc-windows-msvc.zip"@,
        (Arch::X8664, Os::Mac) => "rari-x86_64-apple-darwin.tar.gz"@,
        (Arch::X8664, Os::Linux) => "rari-x86_64-unknown-linux-musl.tar.gz"@,
        (Arch::X8664, Os::Windows) => "rari-x86_64-pc-windows-msvc.zip"@,
        (Arch::X86, _) => Seq::empty(),
    }
}

/// The name of the directory a release version is extracted into.
pub open spec fn spec_version_dir(version: Seq<char>) -> Seq<char> {
    "rari-"@ + version
}

/// The local path of the executable inside a version directory.
pub open spec fn spec_local_binary_path(os: Os, version: Seq<char>) -> Seq<char> {
    match os {
        Os::Windows => spec_version_dir(version) + "/rari.exe"@,
        _ => spec_version_dir(version) + "/rari"@,
    }
}

/// The archive packing used for each operating system.
pub open spec fn spec_archive_kind(os: Os) -> ArchiveKind {
    match os {
        Os::Windows => ArchiveKind::Zip,
        _ => ArchiveKind::GzipTar,
    }
}

/// Picks the archive name a release is expected to carry for `key`, or
/// reports the platform unsupported. Total and deterministic: every
/// non-`X86` platform maps to exactly one name.
pub fn asset_name(key: PlatformKey) -> (r: Result<String, crate::error::ResolveError>)
    ensures
        match r {
            Ok(name) => spec_supported(key) && name@ == spec_asset_name(key),
            Err(e) => !spec_supported(key) && e is UnsupportedPlatform,
        },
{
    match (key.arch, key.os) {
        (Arch::X86, _) => Err(crate::error::ResolveError::UnsupportedPlatform),
        (Arch::Aarch64, Os::Mac) => Ok(String::from_str("rari-aarch64-apple-darwin.tar.gz")),
        (Arch::Aarch64, Os::Linux) => Ok(
            String::from_str("rari-aarch64-unknown-linux-musl.tar.gz"),
        ),
        (Arch::Aarch64, Os::Windows) => Ok(String::from_str("rari-aarch64-pc-windows-msvc.zip")),
        (Arch::X8664, Os::Mac) => Ok(String::from_str("rari-x86_64-apple-darwin.tar.gz")),
        (Arch::X8664, Os::Linux) => Ok(String::from_str("rari-x86_64-unknown-linux-musl.tar.gz")),
        (Arch::X8664, Os::Windows) => Ok(String::from_str("rari-x86_64-pc-windows-msvc.zip")),
    }
}

/// Builds the name of the directory that holds an extracted release.
pub fn version_dir_name(version: &String) -> (r: String)
    ensures
        r@ == spec_version_dir(version@),
{
    String::from_str("rari-").concat(version.as_str())
}

/// Builds the version-qualified local path of the executable.
pub fn local_binary_path(os: Os, version: &String) -> (r: String)
    ensures
        r@ == spec_local_binary_path(os, version@),
{
    let dir = version_dir_name(version);
    match os {
        Os::Windows => dir.concat("/rari.exe"),
        _ => dir.concat("/rari"),
    }
}

/// The archive packing to request when downloading for `os`.
pub fn archive_kind(os: Os) -> (r: ArchiveKind)
    ensures
        r == spec_archive_kind(os),
{
    match os {
        Os::Windows => ArchiveKind::Zip,
        _ => ArchiveKind::GzipTar,
    }
}

} // verus!
