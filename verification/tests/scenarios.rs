use kernel_builder::{
    Action, Args, BuilderErr, Cause, Event, KBConfig, KernelBuilder, Place, Session, SourceEntry,
    Stage, Step, Tool,
};
use std::collections::HashMap;

#[derive(Clone, Debug, PartialEq)]
enum Node {
    File(Vec<u8>),
    Link(String),
    Dir,
}

/// A host in memory: a file system, the user's answers, and tools that do
/// what the real ones do to the files.
struct Host {
    files: HashMap<String, Node>,
    pick: Option<usize>,
    answer: bool,
    drift: Vec<u8>,
    resolve_ok: bool,
    build_code: i32,
    modules_code: i32,
    menuconfig_code: i32,
    built: Vec<u8>,
    log: Vec<Action>,
}

impl Host {
    fn new() -> Host {
        let mut files = HashMap::new();
        files.insert("/usr/src".to_string(), Node::Dir);
        files.insert("/usr/src/linux-6.6.10-gentoo".to_string(), Node::Dir);
        files.insert("/etc/kernel/.config".to_string(), Node::File(b"CONFIG_OLD=y\n".to_vec()));
        Host {
            files,
            pick: Some(0),
            answer: true,
            drift: Vec::new(),
            resolve_ok: true,
            build_code: 0,
            modules_code: 0,
            menuconfig_code: 0,
            built: b"new image".to_vec(),
            log: Vec::new(),
        }
    }

    fn listing(&self) -> Vec<SourceEntry> {
        let mut paths: Vec<&String> = self
            .files
            .keys()
            .filter(|p| p.starts_with("/usr/src/") && !p["/usr/src/".len()..].contains('/'))
            .collect();
        paths.sort();
        paths
            .into_iter()
            .map(|p| SourceEntry { path: p.clone(), is_symlink: matches!(self.files[p], Node::Link(_)) })
            .collect()
    }

    fn bytes(&self, path: &str) -> Option<Vec<u8>> {
        match self.files.get(path) {
            Some(Node::File(bytes)) => Some(bytes.clone()),
            Some(Node::Link(target)) => match self.files.get(target) {
                Some(Node::File(bytes)) => Some(bytes.clone()),
                _ => None,
            },
            _ => None,
        }
    }

    fn refused() -> Event {
        Event::Failed(std::io::Error::new(std::io::ErrorKind::Other, "refused"))
    }

    fn run(&mut self, tool: Tool, dir: &str) -> Event {
        let exited = |code: i32| Event::Exited { success: code == 0, code: Some(code) };
        match tool {
            Tool::ListNewConfigs => Event::Output(self.drift.clone()),
            Tool::OldDefConfig => {
                if !self.resolve_ok {
                    return exited(1);
                }
                let config = format!("{dir}/.config");
                let old = self.files.remove(&config).unwrap();
                let mut bytes = self.bytes("/etc/kernel/.config").unwrap();
                bytes.extend_from_slice(b"CONFIG_NEW=y\n");
                self.files.insert(format!("{dir}/.config.old"), old);
                self.files.insert(config, Node::File(bytes));
                exited(0)
            }
            Tool::Menuconfig => exited(self.menuconfig_code),
            Tool::Make => {
                if self.build_code == 0 {
                    self.files.insert(format!("{dir}/arch/x86/boot/bzImage"), Node::File(self.built.clone()));
                }
                exited(self.build_code)
            }
            Tool::ModulesInstall => exited(self.modules_code),
            Tool::Dracut => {
                self.files.insert("/boot/initramfs.img".to_string(), Node::File(b"new initramfs".to_vec()));
                exited(0)
            }
        }
    }

    fn perform(&mut self, builder: &KernelBuilder, session: &Session, action: Action) -> Event {
        self.log.push(action);
        let at = |place: Place| builder.locate(session, place).unwrap();
        match action {
            Action::Select => Event::Selected(self.pick),
            Action::Confirm(_) => Event::Answer(self.answer),
            Action::ReadLink(place) => match self.files.get(&at(place)) {
                Some(Node::Link(target)) => Event::LinkTarget(Some(target.clone())),
                None => Event::LinkTarget(None),
                Some(_) => Host::refused(),
            },
            Action::Exists(place) => Event::Found(self.files.contains_key(&at(place))),
            Action::IsFile(place) => Event::Found(self.bytes(&at(place)).is_some()),
            Action::Remove(place) => match self.files.remove(&at(place)) {
                Some(_) => Event::Done,
                None => Host::refused(),
            },
            Action::Symlink { target, link } => {
                if self.files.contains_key(&at(link)) {
                    return Host::refused();
                }
                self.files.insert(at(link), Node::Link(at(target)));
                Event::Done
            }
            Action::Copy { from, to } => match self.bytes(&at(from)) {
                Some(bytes) => {
                    self.files.insert(at(to), Node::File(bytes));
                    Event::Done
                }
                None => Host::refused(),
            },
            Action::Run(tool) => {
                let command = builder.command(session, tool, Some(4)).unwrap();
                assert_eq!(command.dir, at(Place::VersionDir));
                self.run(tool, &command.dir)
            }
        }
    }

    /// Drives one run to its end.
    fn build(&mut self, config: KBConfig, cli: &Args) -> Result<(), BuilderErr> {
        let builder = KernelBuilder::new(config, self.listing());
        let mut step = builder.build(cli, Session::new(), Event::Begin);
        for _ in 0..100 {
            match step {
                Step::Finished { result } => return result,
                Step::Continue { session, action } => {
                    let event = self.perform(&builder, &session, action);
                    step = builder.build(cli, session, event);
                }
            }
        }
        panic!("the run does not end");
    }

    fn mutations(&self) -> Vec<Action> {
        self.log
            .iter()
            .copied()
            .filter(|a| matches!(a, Action::Remove(_) | Action::Symlink { .. } | Action::Copy { .. }))
            .collect()
    }

    fn tools(&self) -> Vec<Tool> {
        self.log
            .iter()
            .filter_map(|a| match a {
                Action::Run(tool) => Some(*tool),
                _ => None,
            })
            .collect()
    }
}

fn settings() -> KBConfig {
    KBConfig {
        kernel_file_path: "/boot/vmlinuz".to_string(),
        initramfs_file_path: Some("/boot/initramfs.img".to_string()),
        kernel_config_file_path: "/etc/kernel/.config".to_string(),
        kernel_src: "/usr/src".to_string(),
        keep_last_kernel: true,
        last_kernel_suffix: None,
    }
}

fn skip_all() -> Args {
    Args { no_build: true, no_initramfs: true, no_modules: true, menuconfig: false, replace: false }
}

fn build_only() -> Args {
    Args { no_build: false, no_initramfs: true, no_modules: true, menuconfig: false, replace: false }
}

const DIR: &str = "/usr/src/linux-6.6.10-gentoo";

#[test]
fn scenario_links_are_created_and_nothing_is_built() {
    let mut host = Host::new();
    let result = host.build(settings(), &skip_all());
    assert!(result.is_ok());
    assert_eq!(host.files["/usr/src/linux"], Node::Link(DIR.to_string()));
    assert_eq!(host.files[&format!("{DIR}/.config")], Node::Link("/etc/kernel/.config".to_string()));
    assert_eq!(host.tools(), vec![Tool::ListNewConfigs]);
    assert_eq!(
        host.log,
        vec![
            Action::Select,
            Action::ReadLink(Place::ActiveLink),
            Action::Symlink { target: Place::VersionDir, link: Place::ActiveLink },
            Action::Exists(Place::VersionConfig),
            Action::IsFile(Place::CanonicalConfig),
            Action::Symlink { target: Place::CanonicalConfig, link: Place::VersionConfig },
            Action::Run(Tool::ListNewConfigs),
        ]
    );
    assert_eq!(host.files["/etc/kernel/.config"], Node::File(b"CONFIG_OLD=y\n".to_vec()));
    assert!(!host.files.contains_key("/etc/kernel/.config.old"));
}

#[test]
fn scenario_drift_is_resolved_and_the_old_configuration_kept() {
    let mut host = Host::new();
    host.drift = b"CONFIG_NEW\n".to_vec();
    let result = host.build(settings(), &skip_all());
    assert!(result.is_ok());
    assert_eq!(host.files["/etc/kernel/.config.old"], Node::File(b"CONFIG_OLD=y\n".to_vec()));
    assert_eq!(
        host.files["/etc/kernel/.config"],
        Node::File(b"CONFIG_OLD=y\nCONFIG_NEW=y\n".to_vec())
    );
    assert_eq!(host.files[&format!("{DIR}/.config")], Node::Link("/etc/kernel/.config".to_string()));
    assert!(!host.files.contains_key(&format!("{DIR}/.config.old")));
    assert_eq!(host.tools(), vec![Tool::ListNewConfigs, Tool::OldDefConfig]);
    let sync: Vec<Action> = host.mutations().into_iter().skip(2).collect();
    assert_eq!(
        sync,
        vec![
            Action::Copy { from: Place::CanonicalConfig, to: Place::ConfigBackup },
            Action::Copy { from: Place::VersionConfig, to: Place::CanonicalConfig },
            Action::Remove(Place::VersionConfigOld),
            Action::Remove(Place::VersionConfig),
            Action::Symlink { target: Place::CanonicalConfig, link: Place::VersionConfig },
        ]
    );
}

#[test]
fn scenario_the_last_image_is_kept_and_the_new_one_installed() {
    let mut host = Host::new();
    host.files.insert("/boot/vmlinuz".to_string(), Node::File(b"old image".to_vec()));
    let result = host.build(settings(), &build_only());
    assert!(result.is_ok());
    assert_eq!(host.files["/boot/vmlinuz-prev"], Node::File(b"old image".to_vec()));
    assert_eq!(host.files["/boot/vmlinuz"], Node::File(b"new image".to_vec()));
    let tail: Vec<Action> = host.log.iter().copied().rev().take(4).rev().collect();
    assert_eq!(
        tail,
        vec![
            Action::Run(Tool::Make),
            Action::Exists(Place::KernelImage),
            Action::Copy { from: Place::KernelImage, to: Place::KernelBackup },
            Action::Copy { from: Place::BuiltImage, to: Place::KernelImage },
        ]
    );
}

#[test]
fn a_first_install_keeps_nothing() {
    let mut host = Host::new();
    let result = host.build(settings(), &build_only());
    assert!(result.is_ok());
    assert!(!host.files.contains_key("/boot/vmlinuz-prev"));
    assert_eq!(host.files["/boot/vmlinuz"], Node::File(b"new image".to_vec()));
}

#[test]
fn replace_keeps_no_backup_whatever_the_settings_say() {
    let mut host = Host::new();
    host.files.insert("/boot/vmlinuz".to_string(), Node::File(b"old image".to_vec()));
    host.files.insert("/boot/initramfs.img".to_string(), Node::File(b"old initramfs".to_vec()));
    let cli = Args { no_build: false, no_initramfs: false, no_modules: false, menuconfig: false, replace: true };
    let result = host.build(settings(), &cli);
    assert!(result.is_ok());
    assert!(!host.files.contains_key("/boot/vmlinuz-prev"));
    assert!(!host.files.contains_key("/boot/initramfs-prev.img"));
    assert_eq!(host.files["/boot/vmlinuz"], Node::File(b"new image".to_vec()));
    assert_eq!(host.files["/boot/initramfs.img"], Node::File(b"new initramfs".to_vec()));
    assert!(host.log.iter().all(|a| !matches!(a, Action::Copy { to: Place::KernelBackup, .. }
        | Action::Copy { to: Place::InitramfsBackup, .. }
        | Action::Exists(Place::KernelImage)
        | Action::Exists(Place::Initramfs))));
}

#[test]
fn without_the_setting_no_backup_is_kept() {
    let mut host = Host::new();
    host.files.insert("/boot/vmlinuz".to_string(), Node::File(b"old image".to_vec()));
    let mut config = settings();
    config.keep_last_kernel = false;
    assert!(host.build(config, &build_only()).is_ok());
    assert!(!host.files.contains_key("/boot/vmlinuz-prev"));
    assert_eq!(host.files["/boot/vmlinuz"], Node::File(b"new image".to_vec()));
}

#[test]
fn a_full_run_installs_modules_and_initramfs() {
    let mut host = Host::new();
    host.files.insert("/boot/vmlinuz".to_string(), Node::File(b"old image".to_vec()));
    host.files.insert("/boot/initramfs.img".to_string(), Node::File(b"old initramfs".to_vec()));
    let cli = Args { no_build: false, no_initramfs: false, no_modules: false, menuconfig: true, replace: false };
    assert!(host.build(settings(), &cli).is_ok());
    assert_eq!(
        host.tools(),
        vec![Tool::ListNewConfigs, Tool::Menuconfig, Tool::Make, Tool::ModulesInstall, Tool::Dracut]
    );
    assert_eq!(host.files["/boot/initramfs-prev.img"], Node::File(b"old initramfs".to_vec()));
    assert_eq!(host.files["/boot/initramfs.img"], Node::File(b"new initramfs".to_vec()));
    assert_eq!(host.files["/boot/vmlinuz-prev"], Node::File(b"old image".to_vec()));
    assert!(host.log.len() <= 26);
    let mut seen = host.log.clone();
    seen.dedup();
    assert_eq!(seen.len(), host.log.len());
}

#[test]
fn linking_twice_changes_nothing_the_second_time() {
    let mut host = Host::new();
    assert!(host.build(settings(), &skip_all()).is_ok());
    assert_eq!(host.mutations().len(), 2);
    let left = host.files.clone();
    host.log.clear();
    assert!(host.build(settings(), &skip_all()).is_ok());
    assert_eq!(host.mutations(), vec![]);
    assert_eq!(host.files, left);
    assert_eq!(
        host.log,
        vec![
            Action::Select,
            Action::ReadLink(Place::ActiveLink),
            Action::Exists(Place::VersionConfig),
            Action::Run(Tool::ListNewConfigs),
        ]
    );
}

#[test]
fn a_link_to_another_version_is_replaced() {
    let mut host = Host::new();
    host.files.insert("/usr/src/linux".to_string(), Node::Link("/usr/src/linux-5.4".to_string()));
    assert!(host.build(settings(), &skip_all()).is_ok());
    assert_eq!(host.files["/usr/src/linux"], Node::Link(DIR.to_string()));
    assert_eq!(
        host.mutations()[..2],
        [
            Action::Remove(Place::ActiveLink),
            Action::Symlink { target: Place::VersionDir, link: Place::ActiveLink },
        ]
    );
}

#[test]
fn a_relative_link_to_the_version_is_left_alone() {
    let mut host = Host::new();
    host.files.insert("/usr/src/linux".to_string(), Node::Link("linux-6.6.10-gentoo".to_string()));
    host.files.insert(format!("{DIR}/.config"), Node::Link("/etc/kernel/.config".to_string()));
    assert!(host.build(settings(), &skip_all()).is_ok());
    assert_eq!(host.mutations(), vec![]);
}

#[test]
fn no_pick_ends_the_run_without_an_error() {
    let mut host = Host::new();
    host.pick = None;
    assert!(host.build(settings(), &build_only()).is_ok());
    assert_eq!(host.log, vec![Action::Select]);
}

#[test]
fn a_missing_canonical_configuration_ends_the_run() {
    let mut host = Host::new();
    host.files.remove("/etc/kernel/.config");
    let result = host.build(settings(), &skip_all());
    assert!(matches!(result, Err(BuilderErr::KernelConfigMissing)));
    assert!(!host.files.contains_key(&format!("{DIR}/.config")));
    host.files.insert("/etc/kernel/.config".to_string(), Node::Dir);
    host.log.clear();
    assert!(matches!(host.build(settings(), &skip_all()), Err(BuilderErr::KernelConfigMissing)));
}

#[test]
fn a_failed_resolution_leaves_the_canonical_configuration_alone() {
    let mut host = Host::new();
    host.drift = b"CONFIG_NEW\n".to_vec();
    host.resolve_ok = false;
    let result = host.build(settings(), &build_only());
    assert!(matches!(result, Err(BuilderErr::KernelConfigUpdateError)));
    assert_eq!(host.files["/etc/kernel/.config"], Node::File(b"CONFIG_OLD=y\n".to_vec()));
    assert!(!host.files.contains_key("/etc/kernel/.config.old"));
    assert_eq!(host.tools(), vec![Tool::ListNewConfigs, Tool::OldDefConfig]);
}

#[test]
fn a_failed_build_installs_nothing() {
    let mut host = Host::new();
    host.files.insert("/boot/vmlinuz".to_string(), Node::File(b"old image".to_vec()));
    host.build_code = 2;
    let result = host.build(settings(), &build_only());
    assert!(matches!(result, Err(BuilderErr::KernelBuildFail(Cause::Status { code: Some(2) }))));
    assert_eq!(host.files["/boot/vmlinuz"], Node::File(b"old image".to_vec()));
    assert!(!host.files.contains_key("/boot/vmlinuz-prev"));
}

#[test]
fn a_failed_module_install_is_fatal() {
    let mut host = Host::new();
    host.modules_code = 1;
    let cli = Args { no_build: true, no_initramfs: false, no_modules: false, menuconfig: false, replace: false };
    let result = host.build(settings(), &cli);
    assert!(matches!(result, Err(BuilderErr::KernelBuildFail(Cause::Status { code: Some(1) }))));
    assert_eq!(host.tools(), vec![Tool::ListNewConfigs, Tool::ModulesInstall]);
}

#[test]
fn a_failed_menuconfig_is_fatal() {
    let mut host = Host::new();
    host.menuconfig_code = 130;
    let cli = Args { no_build: false, no_initramfs: true, no_modules: true, menuconfig: true, replace: false };
    let result = host.build(settings(), &cli);
    assert!(matches!(result, Err(BuilderErr::MenuconfigError)));
    assert_eq!(host.tools(), vec![Tool::ListNewConfigs, Tool::Menuconfig]);
}

#[test]
fn declining_after_menuconfig_ends_the_run_without_building() {
    let mut host = Host::new();
    host.answer = false;
    let cli = Args { no_build: false, no_initramfs: false, no_modules: false, menuconfig: true, replace: false };
    assert!(host.build(settings(), &cli).is_ok());
    assert_eq!(host.tools(), vec![Tool::ListNewConfigs, Tool::Menuconfig]);
}

#[test]
fn declining_modules_and_initramfs_skips_them() {
    let mut host = Host::new();
    host.answer = false;
    let cli = Args { no_build: false, no_initramfs: false, no_modules: false, menuconfig: false, replace: false };
    assert!(host.build(settings(), &cli).is_ok());
    assert_eq!(host.tools(), vec![Tool::ListNewConfigs, Tool::Make]);
}

#[test]
fn an_initramfs_without_its_option_is_an_error() {
    let mut host = Host::new();
    let mut config = settings();
    config.initramfs_file_path = None;
    let cli = Args { no_build: true, no_initramfs: false, no_modules: true, menuconfig: false, replace: false };
    let result = host.build(config, &cli);
    assert!(matches!(result, Err(BuilderErr::KernelConfigMissingOption(ref name)) if name == "initramfs"));
    assert_eq!(host.tools(), vec![Tool::ListNewConfigs]);
}

#[test]
fn the_run_stands_where_the_session_says() {
    let host = Host::new();
    let builder = KernelBuilder::new(settings(), host.listing());
    let step = builder.build(&skip_all(), Session::new(), Event::Begin);
    match step {
        Step::Continue { session, action } => {
            assert_eq!(session, Session { stage: Stage::Selecting, version: None });
            assert_eq!(action, Action::Select);
            assert_eq!(session.stage.action(), Action::Select);
        }
        Step::Finished { .. } => panic!("a run does not end before it begins"),
    }
}
