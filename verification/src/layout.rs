//! Where the places of a run are in the file system.

use crate::builder::{KernelBuilder, Session};
use crate::path::{
    base_name, beside, file_name, file_stem, join, joined, stem_of, with_file_name,
};
use crate::plan::Place;
use vstd::prelude::*;

verus! {

/// The name under which the last kernel image is kept: the image's name,
/// a hyphen, the suffix.
pub open spec fn kernel_backup_name(name: Seq<char>, suffix: Seq<char>) -> Seq<char> {
    name + "-"@ + suffix
}

/// The name under which the last initramfs is kept: its name without the
/// extension, a hyphen, the suffix, and `.img`.
pub open spec fn initramfs_backup_name(name: Seq<char>, suffix: Seq<char>) -> Seq<char> {
    stem_of(name) + "-"@ + suffix + ".img"@
}

/// A path, where there is one, as contracts see it.
pub open spec fn text_of(path: Option<String>) -> Option<Seq<char>> {
    match path {
        Some(path) => Some(path@),
        None => None,
    }
}

/// The name under which the last kernel image is kept.
pub fn backup_name_of_kernel(name: &str, suffix: &str) -> (kept: String)
    ensures
        kept@ == kernel_backup_name(name@, suffix@),
{
    String::from_str(name).concat("-").concat(suffix)
}

/// The name under which the last initramfs is kept.
pub fn backup_name_of_initramfs(name: &str, suffix: &str) -> (kept: String)
    ensures
        kept@ == initramfs_backup_name(name@, suffix@),
{
    file_stem(name).concat("-").concat(suffix).concat(".img")
}

impl KernelBuilder {
    /// The path of `place` in the run `session`. The places in the version
    /// directory have none before a version is picked, and the initramfs
    /// and its backup have none where the settings name no initramfs.
    pub open spec fn place(&self, session: Session, place: Place) -> Option<Seq<char>> {
        match place {
            Place::ActiveLink => Some(joined(self.config.kernel_src@, "linux"@)),
            Place::VersionDir => match session.version {
                Some(version) => Some(version.path@),
                None => None,
            },
            Place::VersionConfig => match session.version {
                Some(version) => Some(joined(version.path@, ".config"@)),
                None => None,
            },
            Place::VersionConfigOld => match session.version {
                Some(version) => Some(joined(version.path@, ".config.old"@)),
                None => None,
            },
            Place::BuiltImage => match session.version {
                Some(version) => Some(joined(version.path@, "arch/x86/boot/bzImage"@)),
                None => None,
            },
            Place::CanonicalConfig => Some(self.config.kernel_config_file_path@),
            Place::ConfigBackup => Some(
                beside(self.config.kernel_config_file_path@, ".config.old"@),
            ),
            Place::KernelImage => Some(self.config.kernel_file_path@),
            Place::KernelBackup => Some(
                beside(
                    self.config.kernel_file_path@,
                    kernel_backup_name(
                        base_name(self.config.kernel_file_path@),
                        self.config.suffix_text(),
                    ),
                ),
            ),
            Place::Initramfs => match self.config.initramfs_file_path {
                Some(path) => Some(path@),
                None => None,
            },
            Place::InitramfsBackup => match self.config.initramfs_file_path {
                Some(path) => Some(
                    beside(
                        path@,
                        initramfs_backup_name(base_name(path@), self.config.suffix_text()),
                    ),
                ),
                None => None,
            },
        }
    }

    /// The path of `place` in the run `session`, where it has one.
    pub fn locate(&self, session: &Session, place: Place) -> (path: Option<String>)
        ensures
            text_of(path) == self.place(*session, place),
    {
        match place {
            Place::ActiveLink => Some(join(self.config.kernel_src.as_str(), "linux")),
            Place::VersionDir => match &session.version {
                Some(version) => Some(version.path.clone()),
                None => None,
            },
            Place::VersionConfig => match &session.version {
                Some(version) => Some(join(version.path.as_str(), ".config")),
                None => None,
            },
            Place::VersionConfigOld => match &session.version {
                Some(version) => Some(join(version.path.as_str(), ".config.old")),
                None => None,
            },
            Place::BuiltImage => match &session.version {
                Some(version) => Some(join(version.path.as_str(), "arch/x86/boot/bzImage")),
                None => None,
            },
            Place::CanonicalConfig => Some(self.config.kernel_config_file_path.clone()),
            Place::ConfigBackup => Some(
                with_file_name(self.config.kernel_config_file_path.as_str(), ".config.old"),
            ),
            Place::KernelImage => Some(self.config.kernel_file_path.clone()),
            Place::KernelBackup => {
                let image = self.config.kernel_file_path.as_str();
                let name = file_name(image);
                let suffix = self.config.suffix();
                let kept = backup_name_of_kernel(name.as_str(), suffix.as_str());
                Some(with_file_name(image, kept.as_str()))
            },
            Place::Initramfs => match &self.config.initramfs_file_path {
                Some(path) => Some(path.clone()),
                None => None,
            },
            Place::InitramfsBackup => match &self.config.initramfs_file_path {
                Some(path) => {
                    let name = file_name(path.as_str());
                    let suffix = self.config.suffix();
                    let kept = backup_name_of_initramfs(name.as_str(), suffix.as_str());
                    Some(with_file_name(path.as_str(), kept.as_str()))
                },
                None => None,
            },
        }
    }
}

} // verus!
