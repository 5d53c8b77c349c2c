use kernel_builder::catalog::{catalog, SourceEntry, VersionEntry};
use kernel_builder::{KBConfig, KernelBuilder};

fn entry(path: &str, is_symlink: bool) -> SourceEntry {
    SourceEntry { path: path.to_string(), is_symlink }
}

fn settings(root: &str) -> KBConfig {
    KBConfig {
        kernel_file_path: "/boot/vmlinuz".to_string(),
        initramfs_file_path: None,
        kernel_config_file_path: "/etc/kernel/.config".to_string(),
        kernel_src: root.to_string(),
        keep_last_kernel: false,
        last_kernel_suffix: None,
    }
}

#[test]
fn catalog_keeps_the_prefixed_entries_that_are_no_links() {
    let listing = vec![
        entry("/usr/src/linux-6.6.10-gentoo", false),
        entry("/usr/src/linux-6.1.0-gentoo", false),
        entry("/usr/src/old-backup", false),
        entry("/usr/src/linux", true),
    ];
    let builder = KernelBuilder::new(settings("/usr/src"), listing);
    assert_eq!(
        builder.versions,
        vec![
            VersionEntry {
                path: "/usr/src/linux-6.6.10-gentoo".to_string(),
                version_string: "linux-6.6.10-gentoo".to_string(),
            },
            VersionEntry {
                path: "/usr/src/linux-6.1.0-gentoo".to_string(),
                version_string: "linux-6.1.0-gentoo".to_string(),
            },
        ]
    );
}

#[test]
fn catalog_of_an_unreadable_root_is_empty() {
    let builder = KernelBuilder::new(settings("/usr/src"), vec![]);
    assert!(builder.versions.is_empty());
    assert_eq!(builder.config, settings("/usr/src"));
}

#[test]
fn catalog_leaves_out_prefixed_links() {
    let listing = vec![entry("/usr/src/linux-current", true), entry("/usr/src/linux-6.1", false)];
    let versions = catalog("/usr/src", &listing);
    assert_eq!(versions.len(), 1);
    assert_eq!(versions[0].version_string, "linux-6.1");
}

#[test]
fn catalog_leaves_out_what_is_not_directly_below_the_root() {
    let listing = vec![
        entry("/opt/linux-6.1", false),
        entry("/usr/src/deep/linux-6.2", false),
        entry("/usr/src/linux-6.3", false),
        entry("/usr/src/linux-", false),
        entry("/usr/src/linux", false),
        entry("/usr/src/Linux-6.4", false),
    ];
    let versions = catalog("/usr/src", &listing);
    let names: Vec<&str> = versions.iter().map(|v| v.version_string.as_str()).collect();
    assert_eq!(names, vec!["linux-6.3", "linux-"]);
}

#[test]
fn catalog_takes_a_root_with_a_slash_at_its_end() {
    let listing = vec![entry("/usr/src/linux-6.1", false)];
    let versions = catalog("/usr/src/", &listing);
    assert_eq!(versions.len(), 1);
    assert_eq!(versions[0].path, "/usr/src/linux-6.1");
}

#[test]
fn catalog_keeps_the_order_of_the_listing() {
    let listing = vec![
        entry("/s/linux-3", false),
        entry("/s/x", false),
        entry("/s/linux-1", false),
        entry("/s/linux-2", false),
    ];
    let versions = catalog("/s", &listing);
    let names: Vec<&str> = versions.iter().map(|v| v.version_string.as_str()).collect();
    assert_eq!(names, vec!["linux-3", "linux-1", "linux-2"]);
}

#[test]
fn from_entry_tells_versions_from_the_rest() {
    let found = VersionEntry::from_entry("/usr/src", &entry("/usr/src/linux-6.6.10-gentoo", false));
    assert_eq!(
        found,
        Some(VersionEntry {
            path: "/usr/src/linux-6.6.10-gentoo".to_string(),
            version_string: "linux-6.6.10-gentoo".to_string(),
        })
    );
    assert_eq!(VersionEntry::from_entry("/usr/src", &entry("/usr/src/linux", true)), None);
    assert_eq!(VersionEntry::from_entry("/usr/src", &entry("/usr/src/old-backup", false)), None);
}

#[test]
fn kernel_version_is_the_name_without_its_prefix() {
    let version = VersionEntry {
        path: "/usr/src/linux-6.6.10-gentoo".to_string(),
        version_string: "linux-6.6.10-gentoo".to_string(),
    };
    assert_eq!(version.kernel_version(), "6.6.10-gentoo");
    let odd = VersionEntry { path: "/x/custom".to_string(), version_string: "custom".to_string() };
    assert_eq!(odd.kernel_version(), "custom");
}

#[test]
fn clones_are_equal() {
    let version = VersionEntry { path: "/s/linux-1".to_string(), version_string: "linux-1".to_string() };
    assert_eq!(version.clone(), version);
    let source = entry("/s/linux-1", true);
    assert_eq!(source.clone(), source);
}
