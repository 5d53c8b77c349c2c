//! The kernel source trees that are installed below the source root.

use crate::path::{base_name, file_name, join, joined, same_text, skip, starts_with};
use vstd::prelude::*;

verus! {

/// What the name of every kernel source tree begins with: `linux-`.
pub open spec fn version_prefix() -> Seq<char> {
    seq!['l', 'i', 'n', 'u', 'x', '-']
}

/// One entry of the listing of the source root, as it was read.
#[derive(Debug, PartialEq, Eq)]
pub struct SourceEntry {
    /// The entry's path, the source root included.
    pub path: String,
    /// Whether the entry is a symbolic link.
    pub is_symlink: bool,
}

/// One installed kernel source tree.
#[derive(Debug, PartialEq, Eq)]
pub struct VersionEntry {
    /// Path of the source directory.
    pub path: String,
    /// The directory's name: what the user picks a version by, and what the
    /// initramfs generator derives the kernel version from.
    pub version_string: String,
}

impl Clone for SourceEntry {
    fn clone(&self) -> (copy: Self)
        ensures
            copy == *self,
    {
        SourceEntry { path: self.path.clone(), is_symlink: self.is_symlink }
    }
}

impl Clone for VersionEntry {
    fn clone(&self) -> (copy: Self)
        ensures
            copy == *self,
    {
        VersionEntry { path: self.path.clone(), version_string: self.version_string.clone() }
    }
}

/// Whether `entry` of the listing of `root` is a kernel source tree: it lies
/// directly below `root`, its name begins with `linux-`, and it is no
/// symbolic link.
pub open spec fn is_version(root: Seq<char>, entry: SourceEntry) -> bool {
    &&& !entry.is_symlink
    &&& entry.path@ == joined(root, base_name(entry.path@))
    &&& version_prefix().is_prefix_of(base_name(entry.path@))
}

/// The entries of `listing` that are kernel source trees, in the order of
/// the listing.
pub open spec fn listed(root: Seq<char>, listing: Seq<SourceEntry>) -> Seq<SourceEntry> {
    listing.filter(|entry: SourceEntry| is_version(root, entry))
}

/// Whether `versions` is the catalog of `listing`: one version for each
/// entry that is a kernel source tree, in the order of the listing, and
/// nothing else.
pub open spec fn is_catalog_of(
    versions: Seq<VersionEntry>,
    root: Seq<char>,
    listing: Seq<SourceEntry>,
) -> bool {
    &&& versions.len() == listed(root, listing).len()
    &&& forall|i: int|
        0 <= i < versions.len() ==> (#[trigger] versions[i]).describes(listed(root, listing)[i])
}

impl VersionEntry {
    /// Whether this version stands for `entry`: it has the entry's path and
    /// is named by the path's final segment.
    pub open spec fn describes(&self, entry: SourceEntry) -> bool {
        &&& self.path@ == entry.path@
        &&& self.version_string@ == base_name(entry.path@)
    }

    /// A version is well formed when it is named by the final segment of
    /// its path and that name begins with `linux-`.
    pub open spec fn wf(&self) -> bool {
        &&& self.version_string@ == base_name(self.path@)
        &&& version_prefix().is_prefix_of(self.version_string@)
    }

    /// The kernel version: the name without `linux-` in front. A name that
    /// does not begin so is the kernel version as it stands.
    pub open spec fn kernel_version_text(&self) -> Seq<char> {
        if version_prefix().is_prefix_of(self.version_string@) {
            self.version_string@.skip(version_prefix().len() as int)
        } else {
            self.version_string@
        }
    }

    /// The version that `entry` of the listing of `root` stands for, if it
    /// is a kernel source tree.
    pub fn from_entry(root: &str, entry: &SourceEntry) -> (found: Option<VersionEntry>)
        ensures
            found is Some <==> is_version(root@, *entry),
            found matches Some(version) ==> version.describes(*entry) && version.wf(),
    {
        if entry.is_symlink {
            return None;
        }
        let name = file_name(entry.path.as_str());
        let expected = join(root, name.as_str());
        if !same_text(entry.path.as_str(), expected.as_str()) {
            return None;
        }
        proof {
            reveal_strlit("linux-");
            assert("linux-"@ =~= version_prefix());
        }
        if !starts_with(name.as_str(), "linux-") {
            return None;
        }
        Some(VersionEntry { path: entry.path.clone(), version_string: name })
    }

    /// The kernel version that this source tree builds.
    pub fn kernel_version(&self) -> (version: String)
        ensures
            version@ == self.kernel_version_text(),
    {
        proof {
            reveal_strlit("linux-");
            assert("linux-"@ =~= version_prefix());
        }
        if starts_with(self.version_string.as_str(), "linux-") {
            skip(self.version_string.as_str(), 6)
        } else {
            self.version_string.clone()
        }
    }
}

/// Every version of a catalog is well formed.
pub proof fn lemma_catalog_wf(versions: Seq<VersionEntry>, root: Seq<char>, listing: Seq<SourceEntry>)
    requires
        is_catalog_of(versions, root, listing),
    ensures
        forall|i: int| 0 <= i < versions.len() ==> (#[trigger] versions[i]).wf(),
{
    let keep = |entry: SourceEntry| is_version(root, entry);
    assert forall|i: int| 0 <= i < versions.len() implies (#[trigger] versions[i]).wf() by {
        assert(versions[i].describes(listed(root, listing)[i]));
        listing.lemma_filter_pred(keep, i);
    }
}

/// The catalog of the listing of `root`.
pub fn catalog(root: &str, listing: &Vec<SourceEntry>) -> (versions: Vec<VersionEntry>)
    ensures
        is_catalog_of(versions@, root@, listing@),
{
    let ghost keep = |entry: SourceEntry| is_version(root@, entry);
    let mut versions: Vec<VersionEntry> = Vec::new();
    let mut i: usize = 0;
    proof {
        reveal(Seq::filter);
        assert(listing@.take(0) =~= Seq::<SourceEntry>::empty());
    }
    while i < listing.len()
        invariant
            i <= listing.len(),
            keep == (|entry: SourceEntry| is_version(root@, entry)),
            is_catalog_of(versions@, root@, listing@.take(i as int)),
        decreases listing.len() - i,
    {
        let found = VersionEntry::from_entry(root, &listing[i]);
        proof {
            reveal(Seq::filter);
            let before = listing@.take(i as int);
            let after = listing@.take(i as int + 1);
            assert(after.drop_last() =~= before);
            assert(after.last() == listing@[i as int]);
            assert(after.filter(keep) == if keep(listing@[i as int]) {
                before.filter(keep).push(listing@[i as int])
            } else {
                before.filter(keep)
            });
        }
        match found {
            Some(version) => {
                versions.push(version);
            },
            None => {},
        }
        i = i + 1;
    }
    assert(listing@.take(i as int) =~= listing@);
    versions
}

} // verus!
