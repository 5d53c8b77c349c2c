//! What a run is configured with.

use vstd::prelude::*;

verus! {

/// The suffix of a rotated artifact where the settings name none.
pub open spec fn default_suffix() -> Seq<char> {
    seq!['p', 'r', 'e', 'v']
}

/// The builder's settings: where the installed artifacts and the sources
/// are, and whether the artifact that an install replaces is kept.
#[derive(Debug, PartialEq, Eq)]
pub struct KBConfig {
    /// Path of the installed kernel image.
    pub kernel_file_path: String,
    /// Path of the installed initramfs, where one is used.
    pub initramfs_file_path: Option<String>,
    /// Path of the canonical `.config`, to which each source tree links.
    pub kernel_config_file_path: String,
    /// The directory below which the kernel source trees are installed.
    pub kernel_src: String,
    /// Whether an installed artifact is kept under another name before a
    /// new one replaces it.
    pub keep_last_kernel: bool,
    /// What the name of a kept artifact ends in; `prev` where unset.
    pub last_kernel_suffix: Option<String>,
}

impl KBConfig {
    /// The suffix that kept artifacts carry.
    pub open spec fn suffix_text(&self) -> Seq<char> {
        match self.last_kernel_suffix {
            Some(suffix) => suffix@,
            None => default_suffix(),
        }
    }

    /// Whether an install has to keep what it replaces: the settings ask for
    /// it and the caller has not asked to replace outright.
    pub open spec fn keeps_last(&self, replace: bool) -> bool {
        self.keep_last_kernel && !replace
    }

    /// The suffix that kept artifacts carry.
    pub fn suffix(&self) -> (suffix: String)
        ensures
            suffix@ == self.suffix_text(),
    {
        match &self.last_kernel_suffix {
            Some(suffix) => suffix.clone(),
            None => {
                proof {
                    reveal_strlit("prev");
                    assert("prev"@ =~= default_suffix());
                }
                String::from_str("prev")
            },
        }
    }
}

} // verus!
