use mdn_rari::platform::archive_kind;
use mdn_rari::platform::asset_name;
use mdn_rari::platform::local_binary_path;
use mdn_rari::platform::version_dir_name;
use mdn_rari::Arch;
use mdn_rari::ArchiveKind;
use mdn_rari::Os;
use mdn_rari::PlatformKey;
use mdn_rari::ResolveError;

fn key(os: Os, arch: Arch) -> PlatformKey {
    PlatformKey { os, arch }
}

#[test]
fn asset_name_aarch64_mac() {
    let r = asset_name(key(Os::Mac, Arch::Aarch64));
    assert_eq!(r.unwrap(), "rari-aarch64-apple-darwin.tar.gz");
}

#[test]
fn asset_name_aarch64_linux() {
    let r = asset_name(key(Os::Linux, Arch::Aarch64));
    assert_eq!(r.unwrap(), "rari-aarch64-unknown-linux-musl.tar.gz");
}

#[test]
fn asset_name_aarch64_windows() {
    let r = asset_name(key(Os::Windows, Arch::Aarch64));
    assert_eq!(r.unwrap(), "rari-aarch64-pc-windows-msvc.zip");
}

#[test]
fn asset_name_x86_64_mac() {
    let r = asset_name(key(Os::Mac, Arch::X8664));
    assert_eq!(r.unwrap(), "rari-x86_64-apple-darwin.tar.gz");
}

#[test]
fn asset_name_x86_64_linux() {
    let r = asset_name(key(Os::Linux, Arch::X8664));
    assert_eq!(r.unwrap(), "rari-x86_64-unknown-linux-musl.tar.gz");
}

#[test]
fn asset_name_x86_64_windows() {
    let r = asset_name(key(Os::Windows, Arch::X8664));
    assert_eq!(r.unwrap(), "rari-x86_64-pc-windows-msvc.zip");
}

#[test]
fn asset_name_x86_fails_on_every_os() {
    for os in [Os::Mac, Os::Linux, Os::Windows] {
        let r = asset_name(key(os, Arch::X86));
        assert_eq!(r.unwrap_err(), ResolveError::UnsupportedPlatform);
    }
}

#[test]
fn version_dir_is_version_qualified() {
    assert_eq!(version_dir_name(&String::from("2.3.0")), "rari-2.3.0");
}

#[test]
fn local_path_unix_and_windows() {
    let v = String::from("2.3.0");
    assert_eq!(local_binary_path(Os::Mac, &v), "rari-2.3.0/rari");
    assert_eq!(local_binary_path(Os::Linux, &v), "rari-2.3.0/rari");
    assert_eq!(local_binary_path(Os::Windows, &v), "rari-2.3.0/rari.exe");
}

#[test]
fn archive_kind_by_os() {
    assert_eq!(archive_kind(Os::Mac), ArchiveKind::GzipTar);
    assert_eq!(archive_kind(Os::Linux), ArchiveKind::GzipTar);
    assert_eq!(archive_kind(Os::Windows), ArchiveKind::Zip);
}

#[test]
fn error_messages_name_the_failing_step() {
    let not_found = ResolveError::AssetNotFound {
        asset: String::from("rari-x86_64-apple-darwin.tar.gz"),
    };
    assert_eq!(
        not_found.describe(),
        "unable to find rari-x86_64-apple-darwin.tar.gz in latest release"
    );
    assert_eq!(
        ResolveError::UnsupportedPlatform.describe(),
        "x86 not supported"
    );
    let fetch = ResolveError::Fetch {
        message: String::from("rate limited"),
    };
    assert_eq!(fetch.describe(), "rate limited");
    let download = ResolveError::Download {
        message: String::from("connection reset"),
    };
    assert_eq!(download.describe(), "failed to download file: connection reset");
    let permission = ResolveError::Permission {
        message: String::from("read-only filesystem"),
    };
    assert_eq!(permission.describe(), "read-only filesystem");
    let list = ResolveError::DirectoryList {
        message: String::from("permission denied"),
    };
    assert_eq!(
        list.describe(),
        "failed to list working directory permission denied"
    );
    let entry = ResolveError::DirectoryEntry {
        message: String::from("stale handle"),
    };
    assert_eq!(
        entry.describe(),
        "failed to load directory entry stale handle"
    );
}
