//! Resolution and launch of the `rari` language-server binary.
//!
//! The library decides, in a strict priority order, where the binary comes
//! from: an explicit settings path, a copy found on the executable search
//! path, a previously fetched copy, or a fresh download of the latest
//! release. All decisions are pure and verified; the host performs the
//! requested I/O and feeds the outcome back in.

pub mod command;
pub mod error;
pub mod laws;
pub mod platform;
pub mod resolver;

pub use command::LaunchCommand;
pub use error::InstallFault;
pub use error::ListFault;
pub use error::ResolveError;
pub use platform::Arch;
pub use platform::ArchiveKind;
pub use platform::Os;
pub use platform::PlatformKey;
pub use resolver::Action;
pub use resolver::BinarySettings;
pub use resolver::Event;
pub use resolver::Phase;
pub use resolver::RariBinary;
pub use resolver::Release;
pub use resolver::ReleaseAsset;
pub use resolver::Resolution;
pub use resolver::MDN;
