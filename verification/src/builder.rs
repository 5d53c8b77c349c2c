//! The build run, one step at a time.
//!
//! A run goes through its stages in a fixed order: pick a version, set the
//! links right, bring the configuration up to date, configure by hand if
//! asked, build, keep the last image and install the new one, install the
//! modules, generate the initramfs. The first failure ends it.

use crate::catalog::{catalog, is_catalog_of, lemma_catalog_wf, SourceEntry, VersionEntry};
use crate::cli::Args;
use crate::error::{BuilderErr, Cause, Failure};
use crate::path::{base_name, file_name, same_text};
use crate::plan::{request, Action, Event, Stage};
use crate::settings::KBConfig;
use vstd::prelude::*;

verus! {

/// The settings of a host and the kernel versions found on it.
#[derive(Debug)]
pub struct KernelBuilder {
    /// The settings.
    pub config: KBConfig,
    /// The catalog: the installed kernel source trees, in the order in which
    /// the source root listed them.
    pub versions: Vec<VersionEntry>,
}

/// The state of one run.
#[derive(Debug, PartialEq, Eq)]
pub struct Session {
    /// Where the run stands.
    pub stage: Stage,
    /// The version that the user picked, once there is one.
    pub version: Option<VersionEntry>,
}

/// What a step of a run results in.
#[derive(Debug)]
pub enum Step {
    /// The run goes on: the caller performs `action` and reports back with
    /// `session`.
    Continue { session: Session, action: Action },
    /// The run is over.
    Finished { result: Result<(), BuilderErr> },
}

/// A [`Step`] as contracts see it.
pub enum Plan {
    Continue { session: Session, action: Action },
    Finished { result: Result<(), Failure> },
}

/// Where a run turns on a report.
pub enum Turn {
    /// To this stage, by asking what the stage waits on.
    Goto(Stage),
    /// To the reading of the active link, with the version at this index of
    /// the catalog picked.
    Pick(int),
    /// To its end.
    End(Result<(), Failure>),
}

/// A [`Turn`] in the making: what a step hands on before the new state of
/// the run is put together.
pub enum Route {
    Goto(Stage),
    Pick(usize),
    End(Result<(), BuilderErr>),
}

/// The result of a run as contracts see it.
pub open spec fn outcome(result: Result<(), BuilderErr>) -> Result<(), Failure> {
    match result {
        Ok(done) => Ok(done),
        Err(e) => Err(e@),
    }
}

impl View for Step {
    type V = Plan;

    open spec fn view(&self) -> Plan {
        match *self {
            Step::Continue { session, action } => Plan::Continue { session, action },
            Step::Finished { result } => Plan::Finished { result: outcome(result) },
        }
    }
}

impl View for Route {
    type V = Turn;

    open spec fn view(&self) -> Turn {
        match *self {
            Route::Goto(stage) => Turn::Goto(stage),
            Route::Pick(choice) => Turn::Pick(choice as int),
            Route::End(result) => Turn::End(outcome(result)),
        }
    }
}

/// The end of a run on a failure to read, remove, link, back up or promote.
pub open spec fn link_failed(e: std::io::Error) -> Turn {
    Turn::End(Err(Failure::LinkingFileError(e)))
}

/// The end of a run on a failure of the operating system while building,
/// rotating or installing.
pub open spec fn build_failed(e: std::io::Error) -> Turn {
    Turn::End(Err(Failure::KernelBuildFail(Cause::Io(e))))
}

/// The end of a run on a tool of the build that reported failure.
pub open spec fn tool_failed(code: Option<i32>) -> Turn {
    Turn::End(Err(Failure::KernelBuildFail(Cause::Status { code })))
}

/// The end of a run on a prompt that failed.
pub open spec fn prompt_failed(e: std::io::Error) -> Turn {
    Turn::End(Err(Failure::PromptError(e)))
}

/// The turn on the report of a change. Done: `then`. Failed: the run ends,
/// with a linking failure where `linking` holds and a build failure where
/// not. Any other report: the request is made again.
pub open spec fn changed(event: Event, stay: Stage, then: Turn, linking: bool) -> Turn {
    match event {
        Event::Done => then,
        Event::Failed(e) => if linking {
            link_failed(e)
        } else {
            build_failed(e)
        },
        _ => Turn::Goto(stay),
    }
}

/// The turn on the report of a look at the file system.
pub open spec fn looked(event: Event, stay: Stage, yes: Turn, no: Turn, linking: bool) -> Turn {
    match event {
        Event::Found(found) => if found {
            yes
        } else {
            no
        },
        Event::Failed(e) => if linking {
            link_failed(e)
        } else {
            build_failed(e)
        },
        _ => Turn::Goto(stay),
    }
}

/// The turn on the user's answer to a question.
pub open spec fn answered(event: Event, stay: Stage, yes: Turn, no: Turn) -> Turn {
    match event {
        Event::Answer(answer) => if answer {
            yes
        } else {
            no
        },
        Event::Failed(e) => prompt_failed(e),
        _ => Turn::Goto(stay),
    }
}

/// The turn on the end of a tool of the build: `then` on success, the end
/// of the run on failure.
pub open spec fn tool_ended(event: Event, stay: Stage, then: Turn) -> Turn {
    match event {
        Event::Exited { success, code } => if success {
            then
        } else {
            tool_failed(code)
        },
        Event::Failed(e) => build_failed(e),
        _ => Turn::Goto(stay),
    }
}

/// What follows the modules: the question of the initramfs, unless it is
/// skipped.
pub open spec fn after_modules(cli: Args) -> Turn {
    if cli.no_initramfs {
        Turn::End(Ok(()))
    } else {
        Turn::Goto(Stage::ConfirmingInitramfs)
    }
}

/// What follows the build and install of the kernel: the question of the
/// modules, unless they are skipped.
pub open spec fn after_build(cli: Args) -> Turn {
    if cli.no_modules {
        after_modules(cli)
    } else {
        Turn::Goto(Stage::ConfirmingModules)
    }
}

/// What follows the configuration by hand: the build, unless it is skipped.
pub open spec fn after_menuconfig(cli: Args) -> Turn {
    if cli.no_build {
        after_build(cli)
    } else {
        Turn::Goto(Stage::Building)
    }
}

/// What follows once the configuration is up to date: the configuration by
/// hand, if it was asked for.
pub open spec fn after_sync(cli: Args) -> Turn {
    if cli.menuconfig {
        Turn::Goto(Stage::Menuconfig)
    } else {
        after_menuconfig(cli)
    }
}

/// What follows a build that succeeded: the installed image is kept first
/// where that is due, and replaced at once where not.
pub open spec fn after_make(config: KBConfig, cli: Args) -> Turn {
    if config.keeps_last(cli.replace) {
        Turn::Goto(Stage::ProbingKernel)
    } else {
        Turn::Goto(Stage::InstallingKernel)
    }
}

/// What follows the user's yes to the initramfs. Without a path for it in
/// the settings the run ends, naming the option. The installed initramfs
/// is kept first where that is due.
pub open spec fn before_initramfs(config: KBConfig, cli: Args) -> Turn {
    if config.initramfs_file_path is None {
        Turn::End(Err(Failure::KernelConfigMissingOption("initramfs"@)))
    } else if config.keeps_last(cli.replace) {
        Turn::Goto(Stage::ProbingInitramfs)
    } else {
        Turn::Goto(Stage::GeneratingInitramfs)
    }
}

impl Session {
    /// The state of a run that has not begun.
    pub fn new() -> (session: Session)
        ensures
            session == (Session { stage: Stage::Start, version: None }),
    {
        Session { stage: Stage::Start, version: None }
    }

    /// A session is well formed when it has a version from the pick on, and
    /// that version is well formed.
    pub open spec fn wf(&self) -> bool {
        match self.version {
            Some(version) => version.wf() && self.stage != Stage::Start && self.stage
                != Stage::Selecting,
            None => self.stage == Stage::Start || self.stage == Stage::Selecting,
        }
    }

    /// Whether a link that points at `target` makes the picked version the
    /// active one: the final segment of `target` is the version's name.
    pub open spec fn is_active(&self, target: Seq<char>) -> bool {
        self.version matches Some(version) && base_name(target) == version.version_string@
    }

    /// The session at `stage`, with the version it has.
    pub open spec fn at(self, stage: Stage) -> Session {
        Session { stage, version: self.version }
    }
}

impl KernelBuilder {
    /// Where kernel sources are installed by custom.
    pub const LINUX_PATH: &'static str = "/usr/src";

    /// A builder is well formed when every version of its catalog is.
    pub open spec fn wf(&self) -> bool {
        forall|i: int| 0 <= i < self.versions@.len() ==> (#[trigger] self.versions@[i]).wf()
    }

    /// Where the run `session` turns on `event`.
    pub open spec fn turn(&self, cli: Args, session: Session, event: Event) -> Turn {
        let stay = session.stage;
        match session.stage {
            Stage::Start => Turn::Goto(Stage::Selecting),
            Stage::Selecting => match event {
                Event::Selected(Some(choice)) => if choice < self.versions@.len() {
                    Turn::Pick(choice as int)
                } else {
                    Turn::Goto(stay)
                },
                Event::Selected(None) => Turn::End(Ok(())),
                Event::Failed(_) => Turn::End(Ok(())),
                _ => Turn::Goto(stay),
            },
            Stage::ReadingLink => match event {
                Event::LinkTarget(Some(target)) => if session.is_active(target@) {
                    Turn::Goto(Stage::ProbingConfig)
                } else {
                    Turn::Goto(Stage::RemovingLink)
                },
                Event::LinkTarget(None) => Turn::Goto(Stage::Linking),
                Event::Failed(e) => link_failed(e),
                _ => Turn::Goto(stay),
            },
            Stage::RemovingLink => changed(event, stay, Turn::Goto(Stage::Linking), true),
            Stage::Linking => changed(event, stay, Turn::Goto(Stage::ProbingConfig), true),
            Stage::ProbingConfig => looked(
                event,
                stay,
                Turn::Goto(Stage::QueryingDrift),
                Turn::Goto(Stage::CheckingCanonical),
                true,
            ),
            Stage::CheckingCanonical => looked(
                event,
                stay,
                Turn::Goto(Stage::LinkingConfig),
                Turn::End(Err(Failure::KernelConfigMissing)),
                true,
            ),
            Stage::LinkingConfig => changed(event, stay, Turn::Goto(Stage::QueryingDrift), true),
            Stage::QueryingDrift => match event {
                Event::Output(written) => if written@.len() > 0 {
                    Turn::Goto(Stage::ResolvingDrift)
                } else {
                    after_sync(cli)
                },
                Event::Failed(e) => build_failed(e),
                _ => Turn::Goto(stay),
            },
            Stage::ResolvingDrift => match event {
                Event::Exited { success, code } => if success {
                    Turn::Goto(Stage::BackingUpConfig)
                } else {
                    Turn::End(Err(Failure::KernelConfigUpdateError))
                },
                Event::Failed(e) => build_failed(e),
                _ => Turn::Goto(stay),
            },
            Stage::BackingUpConfig => changed(
                event,
                stay,
                Turn::Goto(Stage::PromotingConfig),
                true,
            ),
            Stage::PromotingConfig => changed(
                event,
                stay,
                Turn::Goto(Stage::RemovingStaleBackup),
                true,
            ),
            Stage::RemovingStaleBackup => changed(
                event,
                stay,
                Turn::Goto(Stage::RemovingRegenerated),
                true,
            ),
            Stage::RemovingRegenerated => changed(
                event,
                stay,
                Turn::Goto(Stage::RelinkingConfig),
                true,
            ),
            Stage::RelinkingConfig => changed(event, stay, after_sync(cli), true),
            Stage::Menuconfig => match event {
                Event::Exited { success, code } => if success {
                    Turn::Goto(Stage::ConfirmingContinue)
                } else {
                    Turn::End(Err(Failure::MenuconfigError))
                },
                Event::Failed(_) => Turn::End(Err(Failure::MenuconfigError)),
                _ => Turn::Goto(stay),
            },
            Stage::ConfirmingContinue => answered(
                event,
                stay,
                after_menuconfig(cli),
                Turn::End(Ok(())),
            ),
            Stage::Building => tool_ended(event, stay, after_make(self.config, cli)),
            Stage::ProbingKernel => looked(
                event,
                stay,
                Turn::Goto(Stage::RotatingKernel),
                Turn::Goto(Stage::InstallingKernel),
                false,
            ),
            Stage::RotatingKernel => changed(
                event,
                stay,
                Turn::Goto(Stage::InstallingKernel),
                false,
            ),
            Stage::InstallingKernel => changed(event, stay, after_build(cli), false),
            Stage::ConfirmingModules => answered(
                event,
                stay,
                Turn::Goto(Stage::InstallingModules),
                after_modules(cli),
            ),
            Stage::InstallingModules => tool_ended(event, stay, after_modules(cli)),
            Stage::ConfirmingInitramfs => answered(
                event,
                stay,
                before_initramfs(self.config, cli),
                Turn::End(Ok(())),
            ),
            Stage::ProbingInitramfs => looked(
                event,
                stay,
                Turn::Goto(Stage::RotatingInitramfs),
                Turn::Goto(Stage::GeneratingInitramfs),
                false,
            ),
            Stage::RotatingInitramfs => changed(
                event,
                stay,
                Turn::Goto(Stage::GeneratingInitramfs),
                false,
            ),
            Stage::GeneratingInitramfs => match event {
                Event::Exited { success, code } => Turn::End(Ok(())),
                Event::Failed(e) => build_failed(e),
                _ => Turn::Goto(stay),
            },
        }
    }

    /// What a run that takes `turn` from `session` results in.
    pub open spec fn follow(&self, session: Session, turn: Turn) -> Plan {
        match turn {
            Turn::Goto(stage) => Plan::Continue { session: session.at(stage), action: request(stage) },
            Turn::Pick(choice) => Plan::Continue {
                session: Session {
                    stage: Stage::ReadingLink,
                    version: Some(self.versions@[choice]),
                },
                action: request(Stage::ReadingLink),
            },
            Turn::End(result) => Plan::Finished { result },
        }
    }

    /// The step that the run `session` takes on `event`.
    pub open spec fn next(&self, cli: Args, session: Session, event: Event) -> Plan {
        self.follow(session, self.turn(cli, session, event))
    }

    /// A builder for the host with the settings `config`, whose source root
    /// lists `listing`. Where the source root could not be read, `listing`
    /// is empty, and so is the catalog.
    #[must_use]
    pub fn new(config: KBConfig, listing: Vec<SourceEntry>) -> (builder: Self)
        ensures
            builder.config == config,
            is_catalog_of(builder.versions@, config.kernel_src@, listing@),
            builder.wf(),
    {
        let mut builder = Self { config, versions: Vec::new() };
        builder.get_available_version(&listing);
        proof {
            lemma_catalog_wf(builder.versions@, config.kernel_src@, listing@);
        }
        builder
    }

    /// Fills the catalog from the listing of the source root, unless it
    /// holds versions already.
    fn get_available_version(&mut self, listing: &Vec<SourceEntry>)
        ensures
            final(self).config == old(self).config,
            old(self).versions@.len() == 0 ==> is_catalog_of(
                final(self).versions@,
                old(self).config.kernel_src@,
                listing@,
            ),
            old(self).versions@.len() > 0 ==> final(self).versions == old(self).versions,
    {
        if self.versions.len() == 0 {
            self.versions = catalog(self.config.kernel_src.as_str(), listing);
        }
    }
}

/// The route to the end of a run on a failure to read, remove, link, back
/// up or promote.
fn link_failure(e: std::io::Error) -> (route: Route)
    ensures
        route@ == link_failed(e),
{
    Route::End(Err(BuilderErr::LinkingFileError(e)))
}

/// The route to the end of a run on a failure of the operating system while
/// building, rotating or installing.
fn build_failure(e: std::io::Error) -> (route: Route)
    ensures
        route@ == build_failed(e),
{
    Route::End(Err(BuilderErr::KernelBuildFail(Cause::Io(e))))
}

/// The route on the report of a change.
fn on_change(event: Event, stay: Stage, then: Route, linking: bool) -> (route: Route)
    ensures
        route@ == changed(event, stay, then@, linking),
{
    match event {
        Event::Done => then,
        Event::Failed(e) => if linking {
            link_failure(e)
        } else {
            build_failure(e)
        },
        _ => Route::Goto(stay),
    }
}

/// The route on the report of a look at the file system.
fn on_look(event: Event, stay: Stage, yes: Route, no: Route, linking: bool) -> (route: Route)
    ensures
        route@ == looked(event, stay, yes@, no@, linking),
{
    match event {
        Event::Found(found) => if found {
            yes
        } else {
            no
        },
        Event::Failed(e) => if linking {
            link_failure(e)
        } else {
            build_failure(e)
        },
        _ => Route::Goto(stay),
    }
}

/// The route on the end of a tool of the build.
fn on_tool_end(event: Event, stay: Stage, then: Route) -> (route: Route)
    ensures
        route@ == tool_ended(event, stay, then@),
{
    match event {
        Event::Exited { success, code } => if success {
            then
        } else {
            Route::End(Err(BuilderErr::KernelBuildFail(Cause::Status { code })))
        },
        Event::Failed(e) => build_failure(e),
        _ => Route::Goto(stay),
    }
}

/// The route on the report of a question put to the user.
fn on_answer(event: Event, stay: Stage, yes: Route, no: Route) -> (route: Route)
    ensures
        route@ == answered(event, stay, yes@, no@),
{
    match KernelBuilder::confirm_prompt(event) {
        Some(Ok(answer)) => if answer {
            yes
        } else {
            no
        },
        Some(Err(e)) => Route::End(Err(e)),
        None => Route::Goto(stay),
    }
}

/// The route past the modules.
fn to_initramfs(cli: &Args) -> (route: Route)
    ensures
        route@ == after_modules(*cli),
{
    if cli.no_initramfs {
        Route::End(Ok(()))
    } else {
        Route::Goto(Stage::ConfirmingInitramfs)
    }
}

/// The route past the build and install of the kernel.
fn to_modules(cli: &Args) -> (route: Route)
    ensures
        route@ == after_build(*cli),
{
    if cli.no_modules {
        to_initramfs(cli)
    } else {
        Route::Goto(Stage::ConfirmingModules)
    }
}

/// The route past the configuration by hand.
fn to_build(cli: &Args) -> (route: Route)
    ensures
        route@ == after_menuconfig(*cli),
{
    if cli.no_build {
        to_modules(cli)
    } else {
        Route::Goto(Stage::Building)
    }
}

/// The route past the update of the configuration.
fn to_menuconfig(cli: &Args) -> (route: Route)
    ensures
        route@ == after_sync(*cli),
{
    if cli.menuconfig {
        Route::Goto(Stage::Menuconfig)
    } else {
        to_build(cli)
    }
}

impl KernelBuilder {
    /// One step of a run: given where the run stands and what the caller
    /// reports of the last request, the next request, or the result of the
    /// run. A run begins with `Session::new()` and `Event::Begin`.
    pub fn build(&self, cli: &Args, session: Session, event: Event) -> (step: Step)
        ensures
            step@ == self.next(*cli, session, event),
    {
        let route = match session.stage {
            Stage::Start | Stage::Selecting => self.prompt_for_kernel_version(
                cli,
                &session,
                event,
            ),
            Stage::ReadingLink
            | Stage::RemovingLink
            | Stage::Linking
            | Stage::ProbingConfig
            | Stage::CheckingCanonical
            | Stage::LinkingConfig => self.reconcile_links(cli, &session, event),
            Stage::QueryingDrift
            | Stage::ResolvingDrift
            | Stage::BackingUpConfig
            | Stage::PromotingConfig
            | Stage::RemovingStaleBackup
            | Stage::RemovingRegenerated
            | Stage::RelinkingConfig => self.sync_config(cli, &session, event),
            Stage::Menuconfig | Stage::ConfirmingContinue => self.make_menuconfig(
                cli,
                &session,
                event,
            ),
            Stage::Building
            | Stage::ProbingKernel
            | Stage::RotatingKernel
            | Stage::InstallingKernel => self.build_kernel(cli, &session, event),
            Stage::ConfirmingModules | Stage::InstallingModules => self.install_kernel_modules(
                cli,
                &session,
                event,
            ),
            Stage::ConfirmingInitramfs
            | Stage::ProbingInitramfs
            | Stage::RotatingInitramfs
            | Stage::GeneratingInitramfs => self.generate_initramfs(cli, &session, event),
        };
        self.take(session, route)
    }

    /// The step that takes `route` from `session`.
    fn take(&self, session: Session, route: Route) -> (step: Step)
        requires
            route matches Route::Pick(choice) ==> choice < self.versions@.len(),
        ensures
            step@ == self.follow(session, route@),
    {
        match route {
            Route::Goto(stage) => Step::Continue {
                session: Session { stage, version: session.version },
                action: stage.action(),
            },
            Route::Pick(choice) => Step::Continue {
                session: Session {
                    stage: Stage::ReadingLink,
                    version: Some(self.versions[choice].clone()),
                },
                action: Stage::ReadingLink.action(),
            },
            Route::End(result) => Step::Finished { result },
        }
    }

    /// The pick of a version. The user is asked first; the version at the
    /// index that comes back is picked. No pick, or a prompt that failed,
    /// ends the run without an error. An index outside the catalog has the
    /// user asked again.
    fn prompt_for_kernel_version(&self, cli: &Args, session: &Session, event: Event) -> (route:
        Route)
        requires
            session.stage == Stage::Start || session.stage == Stage::Selecting,
        ensures
            route@ == self.turn(*cli, *session, event),
            route matches Route::Pick(choice) ==> choice < self.versions@.len(),
    {
        match session.stage {
            Stage::Start => Route::Goto(Stage::Selecting),
            _ => match event {
                Event::Selected(Some(choice)) => if choice < self.versions.len() {
                    Route::Pick(choice)
                } else {
                    Route::Goto(Stage::Selecting)
                },
                Event::Selected(None) => Route::End(Ok(())),
                Event::Failed(_) => Route::End(Ok(())),
                _ => Route::Goto(Stage::Selecting),
            },
        }
    }

    /// The links. The active link is read; where it does not name the
    /// picked version it is removed and made anew, where it is missing it is
    /// made. Then the version directory is given its `.config`, a link to
    /// the canonical configuration, unless it has one.
    fn reconcile_links(&self, cli: &Args, session: &Session, event: Event) -> (route: Route)
        requires
            session.stage == Stage::ReadingLink || session.stage == Stage::RemovingLink
                || session.stage == Stage::Linking || session.stage == Stage::ProbingConfig
                || session.stage == Stage::CheckingCanonical || session.stage
                == Stage::LinkingConfig,
        ensures
            route@ == self.turn(*cli, *session, event),
            !(route is Pick),
    {
        let stay = session.stage;
        match session.stage {
            Stage::ReadingLink => match event {
                Event::LinkTarget(Some(target)) => {
                    let active = match &session.version {
                        Some(version) => {
                            let name = file_name(target.as_str());
                            same_text(name.as_str(), version.version_string.as_str())
                        },
                        None => false,
                    };
                    if active {
                        Route::Goto(Stage::ProbingConfig)
                    } else {
                        Route::Goto(Stage::RemovingLink)
                    }
                },
                Event::LinkTarget(None) => Route::Goto(Stage::Linking),
                Event::Failed(e) => link_failure(e),
                _ => Route::Goto(stay),
            },
            Stage::RemovingLink => on_change(event, stay, Route::Goto(Stage::Linking), true),
            Stage::Linking => on_change(event, stay, Route::Goto(Stage::ProbingConfig), true),
            Stage::ProbingConfig => on_look(
                event,
                stay,
                Route::Goto(Stage::QueryingDrift),
                Route::Goto(Stage::CheckingCanonical),
                true,
            ),
            Stage::CheckingCanonical => on_look(
                event,
                stay,
                Route::Goto(Stage::LinkingConfig),
                Route::End(Err(BuilderErr::KernelConfigMissing)),
                true,
            ),
            _ => on_change(event, stay, Route::Goto(Stage::QueryingDrift), true),
        }
    }

    /// The configuration. The build tool lists the symbols that the
    /// canonical configuration does not know; where there are any, it gives
    /// each its default in a new `.config`. The canonical configuration is
    /// backed up, then the new one is copied over it, then the version
    /// directory gets its link back: in this order.
    fn sync_config(&self, cli: &Args, session: &Session, event: Event) -> (route: Route)
        requires
            session.stage == Stage::QueryingDrift || session.stage == Stage::ResolvingDrift
                || session.stage == Stage::BackingUpConfig || session.stage
                == Stage::PromotingConfig || session.stage == Stage::RemovingStaleBackup
                || session.stage == Stage::RemovingRegenerated || session.stage
                == Stage::RelinkingConfig,
        ensures
            route@ == self.turn(*cli, *session, event),
            !(route is Pick),
    {
        let stay = session.stage;
        match session.stage {
            Stage::QueryingDrift => match event {
                Event::Output(written) => if written.len() > 0 {
                    Route::Goto(Stage::ResolvingDrift)
                } else {
                    to_menuconfig(cli)
                },
                Event::Failed(e) => build_failure(e),
                _ => Route::Goto(stay),
            },
            Stage::ResolvingDrift => match event {
                Event::Exited { success, code } => if success {
                    Route::Goto(Stage::BackingUpConfig)
                } else {
                    Route::End(Err(BuilderErr::KernelConfigUpdateError))
                },
                Event::Failed(e) => build_failure(e),
                _ => Route::Goto(stay),
            },
            Stage::BackingUpConfig => on_change(
                event,
                stay,
                Route::Goto(Stage::PromotingConfig),
                true,
            ),
            Stage::PromotingConfig => on_change(
                event,
                stay,
                Route::Goto(Stage::RemovingStaleBackup),
                true,
            ),
            Stage::RemovingStaleBackup => on_change(
                event,
                stay,
                Route::Goto(Stage::RemovingRegenerated),
                true,
            ),
            Stage::RemovingRegenerated => on_change(
                event,
                stay,
                Route::Goto(Stage::RelinkingConfig),
                true,
            ),
            _ => on_change(event, stay, to_menuconfig(cli), true),
        }
    }

    /// The configuration by hand. The tool must start and end well; then
    /// the user decides whether the run goes on.
    fn make_menuconfig(&self, cli: &Args, session: &Session, event: Event) -> (route: Route)
        requires
            session.stage == Stage::Menuconfig || session.stage == Stage::ConfirmingContinue,
        ensures
            route@ == self.turn(*cli, *session, event),
            !(route is Pick),
    {
        let stay = session.stage;
        match session.stage {
            Stage::Menuconfig => match event {
                Event::Exited { success, code } => if success {
                    Route::Goto(Stage::ConfirmingContinue)
                } else {
                    Route::End(Err(BuilderErr::MenuconfigError))
                },
                Event::Failed(_) => Route::End(Err(BuilderErr::MenuconfigError)),
                _ => Route::Goto(stay),
            },
            _ => on_answer(event, stay, to_build(cli), Route::End(Ok(()))),
        }
    }

    /// The build and the install of its image. A build that fails ends the
    /// run. Where the last image is to be kept and there is one, it is
    /// copied to its backup before the new image is copied over it.
    fn build_kernel(&self, cli: &Args, session: &Session, event: Event) -> (route: Route)
        requires
            session.stage == Stage::Building || session.stage == Stage::ProbingKernel
                || session.stage == Stage::RotatingKernel || session.stage
                == Stage::InstallingKernel,
        ensures
            route@ == self.turn(*cli, *session, event),
            !(route is Pick),
    {
        let stay = session.stage;
        match session.stage {
            Stage::Building => {
                let then = if self.config.keep_last_kernel && !cli.replace {
                    Route::Goto(Stage::ProbingKernel)
                } else {
                    Route::Goto(Stage::InstallingKernel)
                };
                on_tool_end(event, stay, then)
            },
            Stage::ProbingKernel => on_look(
                event,
                stay,
                Route::Goto(Stage::RotatingKernel),
                Route::Goto(Stage::InstallingKernel),
                false,
            ),
            Stage::RotatingKernel => on_change(
                event,
                stay,
                Route::Goto(Stage::InstallingKernel),
                false,
            ),
            _ => on_change(event, stay, to_modules(cli), false),
        }
    }

    /// The modules. The user is asked; on a yes the build tool installs
    /// them, and its failure ends the run.
    fn install_kernel_modules(&self, cli: &Args, session: &Session, event: Event) -> (route:
        Route)
        requires
            session.stage == Stage::ConfirmingModules || session.stage
                == Stage::InstallingModules,
        ensures
            route@ == self.turn(*cli, *session, event),
            !(route is Pick),
    {
        let stay = session.stage;
        match session.stage {
            Stage::ConfirmingModules => on_answer(
                event,
                stay,
                Route::Goto(Stage::InstallingModules),
                to_initramfs(cli),
            ),
            _ => on_tool_end(event, stay, to_initramfs(cli)),
        }
    }

    /// The initramfs. The user is asked; on a yes the settings must name
    /// the initramfs. Where the last one is to be kept and there is one, it
    /// is copied to its backup before the generator writes the new one.
    fn generate_initramfs(&self, cli: &Args, session: &Session, event: Event) -> (route: Route)
        requires
            session.stage == Stage::ConfirmingInitramfs || session.stage
                == Stage::ProbingInitramfs || session.stage == Stage::RotatingInitramfs
                || session.stage == Stage::GeneratingInitramfs,
        ensures
            route@ == self.turn(*cli, *session, event),
            !(route is Pick),
    {
        let stay = session.stage;
        match session.stage {
            Stage::ConfirmingInitramfs => {
                let yes = if self.config.initramfs_file_path.is_none() {
                    Route::End(
                        Err(BuilderErr::KernelConfigMissingOption(String::from_str("initramfs"))),
                    )
                } else if self.config.keep_last_kernel && !cli.replace {
                    Route::Goto(Stage::ProbingInitramfs)
                } else {
                    Route::Goto(Stage::GeneratingInitramfs)
                };
                on_answer(event, stay, yes, Route::End(Ok(())))
            },
            Stage::ProbingInitramfs => on_look(
                event,
                stay,
                Route::Goto(Stage::RotatingInitramfs),
                Route::Goto(Stage::GeneratingInitramfs),
                false,
            ),
            Stage::RotatingInitramfs => on_change(
                event,
                stay,
                Route::Goto(Stage::GeneratingInitramfs),
                false,
            ),
            _ => match event {
                Event::Exited { success, code } => Route::End(Ok(())),
                Event::Failed(e) => build_failure(e),
                _ => Route::Goto(stay),
            },
        }
    }

    /// What the report on a question says: the user's answer, or that the
    /// prompt failed. `None` for a report of anything else.
    pub fn confirm_prompt(event: Event) -> (answer: Option<Result<bool, BuilderErr>>)
        ensures
            match event {
                Event::Answer(given) => answer == Some(Ok::<bool, BuilderErr>(given)),
                Event::Failed(e) => answer == Some(
                    Err::<bool, BuilderErr>(BuilderErr::PromptError(e)),
                ),
                _ => answer is None,
            },
    {
        match event {
            Event::Answer(given) => Some(Ok(given)),
            Event::Failed(e) => Some(Err(BuilderErr::PromptError(e))),
            _ => None,
        }
    }
}

} // verus!
