//! The vocabulary of a run: where it stands, what it asks of its caller,
//! and what the caller reports back.

use vstd::prelude::*;

verus! {

/// A place in the file system that a run reads or changes. Which path a
/// place is depends on the settings and on the version that was picked.
#[derive(Clone, Copy, Debug, PartialEq, Eq)]
pub enum Place {
    /// The link `linux` in the source root, which points at the active
    /// version.
    ActiveLink,
    /// The source directory of the picked version.
    VersionDir,
    /// `.config` in the version directory.
    VersionConfig,
    /// `.config.old` in the version directory, which the build tool leaves
    /// when it writes a new `.config`.
    VersionConfigOld,
    /// The image that the build leaves in the version directory.
    BuiltImage,
    /// The canonical configuration file.
    CanonicalConfig,
    /// `.config.old` beside the canonical configuration file.
    ConfigBackup,
    /// The installed kernel image.
    KernelImage,
    /// Where the last installed kernel image is kept.
    KernelBackup,
    /// The installed initramfs.
    Initramfs,
    /// Where the last installed initramfs is kept.
    InitramfsBackup,
}

/// A program that a run starts in the version directory.
#[derive(Clone, Copy, Debug, PartialEq, Eq)]
pub enum Tool {
    /// The build tool, asked which configuration symbols are new.
    ListNewConfigs,
    /// The build tool, asked to give every new symbol its default.
    OldDefConfig,
    /// The build tool's interactive configuration.
    Menuconfig,
    /// The build itself.
    Make,
    /// The build tool, asked to install the modules.
    ModulesInstall,
    /// The initramfs generator.
    Dracut,
}

/// A yes-or-no question to the user.
#[derive(Clone, Copy, Debug, PartialEq, Eq)]
pub enum Question {
    /// After the interactive configuration: go on with the build?
    ContinueBuild,
    /// Install the kernel modules?
    InstallModules,
    /// Generate the initramfs?
    GenerateInitramfs,
}

/// What a run asks its caller to do next.
#[derive(Clone, Copy, Debug, PartialEq, Eq)]
pub enum Action {
    /// Let the user pick one of the catalog's versions.
    Select,
    /// Read where the link at the place points.
    ReadLink(Place),
    /// Tell whether there is an entry at the place.
    Exists(Place),
    /// Tell whether the place holds a regular file.
    IsFile(Place),
    /// Remove the file or link at the place.
    Remove(Place),
    /// Create at `link` a symbolic link that points at `target`.
    Symlink { target: Place, link: Place },
    /// Copy the contents of `from` over `to`.
    Copy { from: Place, to: Place },
    /// Start the tool and await its end.
    Run(Tool),
    /// Ask the user.
    Confirm(Question),
}

/// What the caller reports of the request it was given.
#[derive(Debug)]
pub enum Event {
    /// Nothing yet: the run begins.
    Begin,
    /// The user picked the version at this index of the catalog, or none.
    Selected(Option<usize>),
    /// Where the link points, or `None` where there is no entry to read.
    LinkTarget(Option<String>),
    /// The answer to `Exists` or `IsFile`.
    Found(bool),
    /// The change was made: removed, linked or copied.
    Done,
    /// The tool ended and this is all that it wrote to its standard output.
    Output(Vec<u8>),
    /// The tool ended. `success` tells whether it reported success, `code`
    /// is its exit code where it left one.
    Exited { success: bool, code: Option<i32> },
    /// The user's answer.
    Answer(bool),
    /// The request failed: the operating system refused, or, for a tool,
    /// it could not be started, read from or awaited.
    Failed(std::io::Error),
}

/// Where a run stands. Each stage but `Start` waits for the report on the
/// one request that `request` gives for it.
#[derive(Clone, Copy, Debug, PartialEq, Eq)]
pub enum Stage {
    /// Nothing has been asked yet.
    Start,
    /// The user is picking a version.
    Selecting,
    /// The active link is being read.
    ReadingLink,
    /// The active link points elsewhere and is being removed.
    RemovingLink,
    /// The active link is being created.
    Linking,
    /// The version directory is searched for a `.config`.
    ProbingConfig,
    /// The canonical configuration is checked to be a regular file.
    CheckingCanonical,
    /// `.config` in the version directory is being linked to the canonical
    /// configuration.
    LinkingConfig,
    /// The build tool is listing the new configuration symbols.
    QueryingDrift,
    /// The build tool is resolving the new symbols to their defaults.
    ResolvingDrift,
    /// The canonical configuration is being copied to its backup.
    BackingUpConfig,
    /// The regenerated configuration is being copied over the canonical
    /// one.
    PromotingConfig,
    /// The build tool's `.config.old` is being removed from the version
    /// directory.
    RemovingStaleBackup,
    /// The regenerated `.config` is being removed from the version
    /// directory.
    RemovingRegenerated,
    /// `.config` in the version directory is being linked to the canonical
    /// configuration again.
    RelinkingConfig,
    /// The interactive configuration is open.
    Menuconfig,
    /// The user is asked whether to go on after the configuration.
    ConfirmingContinue,
    /// The kernel is being built.
    Building,
    /// The installed kernel image is looked for, to keep it.
    ProbingKernel,
    /// The installed kernel image is being copied to its backup.
    RotatingKernel,
    /// The built image is being copied over the installed one.
    InstallingKernel,
    /// The user is asked whether to install the modules.
    ConfirmingModules,
    /// The modules are being installed.
    InstallingModules,
    /// The user is asked whether to generate the initramfs.
    ConfirmingInitramfs,
    /// The installed initramfs is looked for, to keep it.
    ProbingInitramfs,
    /// The installed initramfs is being copied to its backup.
    RotatingInitramfs,
    /// The initramfs is being generated.
    GeneratingInitramfs,
}

/// The request that a run at `stage` waits on. A run at `Start` has asked
/// nothing; it is given the request that comes first.
pub open spec fn request(stage: Stage) -> Action {
    match stage {
        Stage::Start => Action::Select,
        Stage::Selecting => Action::Select,
        Stage::ReadingLink => Action::ReadLink(Place::ActiveLink),
        Stage::RemovingLink => Action::Remove(Place::ActiveLink),
        Stage::Linking => Action::Symlink { target: Place::VersionDir, link: Place::ActiveLink },
        Stage::ProbingConfig => Action::Exists(Place::VersionConfig),
        Stage::CheckingCanonical => Action::IsFile(Place::CanonicalConfig),
        Stage::LinkingConfig => Action::Symlink {
            target: Place::CanonicalConfig,
            link: Place::VersionConfig,
        },
        Stage::QueryingDrift => Action::Run(Tool::ListNewConfigs),
        Stage::ResolvingDrift => Action::Run(Tool::OldDefConfig),
        Stage::BackingUpConfig => Action::Copy {
            from: Place::CanonicalConfig,
            to: Place::ConfigBackup,
        },
        Stage::PromotingConfig => Action::Copy {
            from: Place::VersionConfig,
            to: Place::CanonicalConfig,
        },
        Stage::RemovingStaleBackup => Action::Remove(Place::VersionConfigOld),
        Stage::RemovingRegenerated => Action::Remove(Place::VersionConfig),
        Stage::RelinkingConfig => Action::Symlink {
            target: Place::CanonicalConfig,
            link: Place::VersionConfig,
        },
        Stage::Menuconfig => Action::Run(Tool::Menuconfig),
        Stage::ConfirmingContinue => Action::Confirm(Question::ContinueBuild),
        Stage::Building => Action::Run(Tool::Make),
        Stage::ProbingKernel => Action::Exists(Place::KernelImage),
        Stage::RotatingKernel => Action::Copy { from: Place::KernelImage, to: Place::KernelBackup },
        Stage::InstallingKernel => Action::Copy { from: Place::BuiltImage, to: Place::KernelImage },
        Stage::ConfirmingModules => Action::Confirm(Question::InstallModules),
        Stage::InstallingModules => Action::Run(Tool::ModulesInstall),
        Stage::ConfirmingInitramfs => Action::Confirm(Question::GenerateInitramfs),
        Stage::ProbingInitramfs => Action::Exists(Place::Initramfs),
        Stage::RotatingInitramfs => Action::Copy {
            from: Place::Initramfs,
            to: Place::InitramfsBackup,
        },
        Stage::GeneratingInitramfs => Action::Run(Tool::Dracut),
    }
}

impl Stage {
    /// The place of the stage in the order of a run.
    pub open spec fn rank(&self) -> nat {
        match *self {
            Stage::Start => 0,
            Stage::Selecting => 1,
            Stage::ReadingLink => 2,
            Stage::RemovingLink => 3,
            Stage::Linking => 4,
            Stage::ProbingConfig => 5,
            Stage::CheckingCanonical => 6,
            Stage::LinkingConfig => 7,
            Stage::QueryingDrift => 8,
            Stage::ResolvingDrift => 9,
            Stage::BackingUpConfig => 10,
            Stage::PromotingConfig => 11,
            Stage::RemovingStaleBackup => 12,
            Stage::RemovingRegenerated => 13,
            Stage::RelinkingConfig => 14,
            Stage::Menuconfig => 15,
            Stage::ConfirmingContinue => 16,
            Stage::Building => 17,
            Stage::ProbingKernel => 18,
            Stage::RotatingKernel => 19,
            Stage::InstallingKernel => 20,
            Stage::ConfirmingModules => 21,
            Stage::InstallingModules => 22,
            Stage::ConfirmingInitramfs => 23,
            Stage::ProbingInitramfs => 24,
            Stage::RotatingInitramfs => 25,
            Stage::GeneratingInitramfs => 26,
        }
    }

    /// The request that a run at this stage waits on.
    pub fn action(&self) -> (action: Action)
        ensures
            action == request(*self),
    {
        match self {
            Stage::Start => Action::Select,
            Stage::Selecting => Action::Select,
            Stage::ReadingLink => Action::ReadLink(Place::ActiveLink),
            Stage::RemovingLink => Action::Remove(Place::ActiveLink),
            Stage::Linking => Action::Symlink {
                target: Place::VersionDir,
                link: Place::ActiveLink,
            },
            Stage::ProbingConfig => Action::Exists(Place::VersionConfig),
            Stage::CheckingCanonical => Action::IsFile(Place::CanonicalConfig),
            Stage::LinkingConfig | Stage::RelinkingConfig => Action::Symlink {
                target: Place::CanonicalConfig,
                link: Place::VersionConfig,
            },
            Stage::QueryingDrift => Action::Run(Tool::ListNewConfigs),
            Stage::ResolvingDrift => Action::Run(Tool::OldDefConfig),
            Stage::BackingUpConfig => Action::Copy {
                from: Place::CanonicalConfig,
                to: Place::ConfigBackup,
            },
            Stage::PromotingConfig => Action::Copy {
                from: Place::VersionConfig,
                to: Place::CanonicalConfig,
            },
            Stage::RemovingStaleBackup => Action::Remove(Place::VersionConfigOld),
            Stage::RemovingRegenerated => Action::Remove(Place::VersionConfig),
            Stage::Menuconfig => Action::Run(Tool::Menuconfig),
            Stage::ConfirmingContinue => Action::Confirm(Question::ContinueBuild),
            Stage::Building => Action::Run(Tool::Make),
            Stage::ProbingKernel => Action::Exists(Place::KernelImage),
            Stage::RotatingKernel => Action::Copy {
                from: Place::KernelImage,
                to: Place::KernelBackup,
            },
            Stage::InstallingKernel => Action::Copy {
                from: Place::BuiltImage,
                to: Place::KernelImage,
            },
            Stage::ConfirmingModules => Action::Confirm(Question::InstallModules),
            Stage::InstallingModules => Action::Run(Tool::ModulesInstall),
            Stage::ConfirmingInitramfs => Action::Confirm(Question::GenerateInitramfs),
            Stage::ProbingInitramfs => Action::Exists(Place::Initramfs),
            Stage::RotatingInitramfs => Action::Copy {
                from: Place::Initramfs,
                to: Place::InitramfsBackup,
            },
            Stage::GeneratingInitramfs => Action::Run(Tool::Dracut),
        }
    }
}

} // verus!
