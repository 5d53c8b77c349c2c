//! What holds of every run.

use crate::builder::{KernelBuilder, Plan, Session};
use crate::catalog::VersionEntry;
use crate::cli::Args;
use crate::error::{Cause, Failure};
use crate::layout::{initramfs_backup_name, kernel_backup_name};
use crate::model::{mutates, writes, Exchange, Node, Tree};
use crate::path::{
    base_name, beside, joined, last_dot, lemma_base_name_of_joined, lemma_beside_differs,
    lemma_last_dot_bounds, lemma_split, stem_of,
};
use crate::plan::{request, Action, Event, Place, Stage, Tool};
use vstd::prelude::*;

verus! {

/// The stages in which the last installed artifact is looked for and kept.
pub open spec fn rotating(stage: Stage) -> bool {
    stage == Stage::ProbingKernel || stage == Stage::RotatingKernel || stage
        == Stage::ProbingInitramfs || stage == Stage::RotatingInitramfs
}

/// The name of a kept kernel image is not the image's own name.
pub proof fn lemma_kernel_backup_differs(name: Seq<char>, suffix: Seq<char>)
    ensures
        kernel_backup_name(name, suffix) != name,
{
    reveal_strlit("-");
    assert(kernel_backup_name(name, suffix).len() == name.len() + 1 + suffix.len());
}

/// The name of a kept initramfs is not the initramfs's own name.
pub proof fn lemma_initramfs_backup_differs(name: Seq<char>, suffix: Seq<char>)
    ensures
        initramfs_backup_name(name, suffix) != name,
{
    reveal_strlit("-");
    reveal_strlit(".img");
    lemma_last_dot_bounds(name);
    let kept = initramfs_backup_name(name, suffix);
    let stem = stem_of(name);
    assert(kept.len() == stem.len() + 1 + suffix.len() + 4);
    if last_dot(name) > 0 {
        assert(kept[last_dot(name)] == '-');
    }
}

/// The stages up to the turn to the configuration: the pick, the links,
/// and the query that opens the update of the configuration.
pub open spec fn before_sync(stage: Stage) -> bool {
    stage == Stage::Start || stage == Stage::Selecting || stage == Stage::ReadingLink || stage
        == Stage::RemovingLink || stage == Stage::Linking || stage == Stage::ProbingConfig
        || stage == Stage::CheckingCanonical || stage == Stage::LinkingConfig || stage
        == Stage::QueryingDrift
}

impl KernelBuilder {
    /// The path of the canonical configuration.
    pub open spec fn canonical(&self) -> Seq<char> {
        self.config.kernel_config_file_path@
    }

    /// The path of the backup of the canonical configuration.
    pub open spec fn config_backup(&self) -> Seq<char> {
        beside(self.canonical(), ".config.old"@)
    }

    /// The path of the installed kernel image.
    pub open spec fn kernel(&self) -> Seq<char> {
        self.config.kernel_file_path@
    }

    /// The path under which the last kernel image is kept.
    pub open spec fn kernel_backup(&self) -> Seq<char> {
        beside(
            self.kernel(),
            kernel_backup_name(base_name(self.kernel()), self.config.suffix_text()),
        )
    }

    /// Whether the canonical configuration is a regular file in `tree` and
    /// its backup holds the same bytes.
    pub open spec fn config_is_backed_up(&self, tree: Tree) -> bool {
        &&& tree.dom().contains(self.canonical())
        &&& tree[self.canonical()] is File
        &&& tree.dom().contains(self.config_backup())
        &&& tree[self.config_backup()] == tree[self.canonical()]
    }

    /// Whether the installed kernel image, if `tree` holds one, is kept:
    /// its backup holds the same bytes.
    pub open spec fn kernel_is_kept(&self, tree: Tree) -> bool {
        tree.dom().contains(self.kernel()) ==> {
            &&& tree[self.kernel()] is File
            &&& tree.dom().contains(self.kernel_backup())
            &&& tree[self.kernel_backup()] == tree[self.kernel()]
        }
    }

    /// Whether the installed initramfs, if the settings name one and `tree`
    /// holds it, is kept: its backup holds the same bytes.
    pub open spec fn initramfs_is_kept(&self, tree: Tree) -> bool {
        self.config.initramfs_file_path matches Some(path) ==> (tree.dom().contains(path@) ==> {
            let kept = beside(
                path@,
                initramfs_backup_name(base_name(path@), self.config.suffix_text()),
            );
            &&& tree[path@] is File
            &&& tree.dom().contains(kept)
            &&& tree[kept] == tree[path@]
        })
    }

    /// What a run owes before it overwrites: the configuration is backed up
    /// when the run is about to promote a new one, and, where last
    /// artifacts are to be kept, the kernel image is kept when the run is
    /// about to install a new one, and the initramfs when the run is about
    /// to generate a new one.
    pub open spec fn safe(&self, cli: Args, session: Session, tree: Tree) -> bool {
        &&& session.stage == Stage::PromotingConfig ==> self.config_is_backed_up(tree)
        &&& self.config.keeps_last(cli.replace) && session.stage == Stage::InstallingKernel
            ==> self.kernel_is_kept(tree)
        &&& self.config.keeps_last(cli.replace) && session.stage == Stage::GeneratingInitramfs
            ==> self.initramfs_is_kept(tree)
    }

    /// A faithful step keeps a run safe.
    #[verifier::rlimit(50)]
    pub proof fn step_keeps_safe(
        &self,
        cli: Args,
        session: Session,
        before: Tree,
        event: Event,
        after: Tree,
    )
        requires
            base_name(self.canonical()) != ".config.old"@,
            self.safe(cli, session, before),
            self.faithful(session, before, event, after),
        ensures
            self.next(cli, session, event) matches Plan::Continue { session: then, action }
                ==> self.safe(cli, then, after),
    {
        if session.stage == Stage::BackingUpConfig {
            lemma_split(self.canonical());
            lemma_beside_differs(self.canonical(), base_name(self.canonical()), ".config.old"@);
        } else if session.stage == Stage::RotatingKernel {
            lemma_split(self.kernel());
            lemma_kernel_backup_differs(base_name(self.kernel()), self.config.suffix_text());
            lemma_beside_differs(
                self.kernel(),
                base_name(self.kernel()),
                kernel_backup_name(base_name(self.kernel()), self.config.suffix_text()),
            );
        } else if session.stage == Stage::RotatingInitramfs {
            if let Some(path) = self.config.initramfs_file_path {
                lemma_split(path@);
                lemma_initramfs_backup_differs(base_name(path@), self.config.suffix_text());
                lemma_beside_differs(
                    path@,
                    base_name(path@),
                    initramfs_backup_name(base_name(path@), self.config.suffix_text()),
                );
            }
        }
    }

    /// No run overwrites the canonical configuration before its backup
    /// holds the bytes that the configuration has, nor, where the last
    /// artifacts are to be kept, an installed kernel image or initramfs
    /// before its backup holds the artifact's bytes. This holds at every
    /// moment of every run whose reports are faithful, given only that the
    /// canonical configuration is not itself named `.config.old`.
    pub proof fn backup_comes_first(&self, cli: Args, origin: Tree, exchanges: Seq<Exchange>)
        requires
            base_name(self.canonical()) != ".config.old"@,
        ensures
            self.lived(cli, origin, exchanges) matches Some(
                (Plan::Continue { session, action }, tree),
            ) ==> {
                &&& self.safe(cli, session, tree)
                &&& action == request(session.stage)
                &&& writes(action, Place::CanonicalConfig) ==> self.config_is_backed_up(tree)
                &&& self.config.keeps_last(cli.replace) && writes(action, Place::KernelImage)
                    ==> self.kernel_is_kept(tree)
                &&& self.config.keeps_last(cli.replace) && action == Action::Run(Tool::Dracut)
                    ==> self.initramfs_is_kept(tree)
            },
        decreases exchanges.len(),
    {
        if exchanges.len() > 0 {
            self.backup_comes_first(cli, origin, exchanges.drop_last());
            match self.lived(cli, origin, exchanges.drop_last()) {
                Some((Plan::Continue { session, action }, tree)) => {
                    if self.faithful(session, tree, exchanges.last().event, exchanges.last().tree) {
                        self.step_keeps_safe(
                            cli,
                            session,
                            tree,
                            exchanges.last().event,
                            exchanges.last().tree,
                        );
                    }
                },
                _ => {},
            }
        }
    }

    /// The path of the active link.
    pub open spec fn active_link(&self) -> Seq<char> {
        joined(self.config.kernel_src@, "linux"@)
    }

    /// Whether the active link of `tree` names `version`: it is a link, and
    /// the final segment of its target is the version's name.
    pub open spec fn active_is(&self, version: VersionEntry, tree: Tree) -> bool {
        &&& tree.dom().contains(self.active_link())
        &&& tree[self.active_link()] matches Node::Link(target)
        &&& base_name(target) == version.version_string@
    }

    /// Whether the links of `tree` are right for `version`: the active link
    /// names it, and its directory has a `.config`.
    pub open spec fn links_right(&self, version: VersionEntry, tree: Tree) -> bool {
        &&& self.active_is(version, tree)
        &&& tree.dom().contains(joined(version.path@, ".config"@))
    }

    /// What the link stages have achieved when a run stands at `session`:
    /// from the search for `.config` on, the active link names the picked
    /// version; when the run turns to the configuration, the links are
    /// right.
    pub open spec fn linked(&self, session: Session, tree: Tree) -> bool {
        &&& session.wf()
        &&& session.stage == Stage::ProbingConfig || session.stage == Stage::CheckingCanonical
            || session.stage == Stage::LinkingConfig ==> self.active_is(
            session.version->0,
            tree,
        )
        &&& session.stage == Stage::QueryingDrift ==> self.links_right(session.version->0, tree)
    }

    /// The active link and the `.config` of a version directory are
    /// different paths.
    pub proof fn lemma_links_differ(&self, version: VersionEntry)
        ensures
            self.active_link() != joined(version.path@, ".config"@),
    {
        reveal_strlit("linux");
        reveal_strlit(".config");
        lemma_base_name_of_joined(self.config.kernel_src@, "linux"@);
        lemma_base_name_of_joined(version.path@, ".config"@);
        assert("linux"@[0] != ".config"@[0]);
    }

    /// A faithful step keeps what the link stages have achieved.
    #[verifier::rlimit(50)]
    pub proof fn step_keeps_linked(
        &self,
        cli: Args,
        session: Session,
        before: Tree,
        event: Event,
        after: Tree,
    )
        requires
            self.wf(),
            self.linked(session, before),
            self.faithful(session, before, event, after),
        ensures
            self.next(cli, session, event) matches Plan::Continue { session: then, action }
                ==> self.linked(then, after),
    {
        self.next_keeps_wf(cli, session, event);
        if let Some(version) = session.version {
            self.lemma_links_differ(version);
        }
    }

    /// When a run turns from the links to the configuration, the links are
    /// right: the active link names the picked version, and the version
    /// directory has its `.config`.
    pub proof fn links_are_set_right(&self, cli: Args, origin: Tree, exchanges: Seq<Exchange>)
        requires
            self.wf(),
        ensures
            self.lived(cli, origin, exchanges) matches Some(
                (Plan::Continue { session, action }, tree),
            ) ==> self.linked(session, tree),
        decreases exchanges.len(),
    {
        if exchanges.len() > 0 {
            self.links_are_set_right(cli, origin, exchanges.drop_last());
            match self.lived(cli, origin, exchanges.drop_last()) {
                Some((Plan::Continue { session, action }, tree)) => {
                    if self.faithful(session, tree, exchanges.last().event, exchanges.last().tree) {
                        self.step_keeps_linked(
                            cli,
                            session,
                            tree,
                            exchanges.last().event,
                            exchanges.last().tree,
                        );
                    }
                },
                _ => {},
            }
        }
    }

    /// What holds of a run on a file system `kept` whose links are right
    /// for `version`, for as long as the run has not picked another version
    /// and has not gone past the links: the file system is as it was, and
    /// the run is picking, reading the active link, searching for
    /// `.config`, or done with the links.
    pub open spec fn untouched(
        &self,
        version: VersionEntry,
        kept: Tree,
        session: Session,
        tree: Tree,
    ) -> bool {
        &&& session.wf()
        &&& before_sync(session.stage) && (session.version is None || session.version == Some(
            version,
        )) ==> tree == kept && (session.stage == Stage::Start || session.stage == Stage::Selecting
            || session.stage == Stage::ReadingLink || session.stage == Stage::ProbingConfig
            || session.stage == Stage::QueryingDrift)
    }

    /// A faithful step keeps a file system untouched whose links are right.
    #[verifier::rlimit(50)]
    pub proof fn step_keeps_untouched(
        &self,
        cli: Args,
        version: VersionEntry,
        kept: Tree,
        session: Session,
        before: Tree,
        event: Event,
        after: Tree,
    )
        requires
            self.wf(),
            self.links_right(version, kept),
            self.untouched(version, kept, session, before),
            self.faithful(session, before, event, after),
        ensures
            self.next(cli, session, event) matches Plan::Continue { session: then, action }
                ==> self.untouched(version, kept, then, after),
    {
        self.next_keeps_wf(cli, session, event);
    }

    /// Setting the links right twice changes nothing the second time. Once
    /// a run has turned from the links to the configuration, a further run
    /// on the file system that it left, for as long as it has picked no
    /// other version and stands before the configuration, finds the file
    /// system as it was left and asks for no change of it.
    pub proof fn second_linking_changes_nothing(
        &self,
        cli: Args,
        origin: Tree,
        first: Seq<Exchange>,
        again: Args,
        second: Seq<Exchange>,
    )
        requires
            self.wf(),
            self.lived(cli, origin, first) matches Some(
                (Plan::Continue { session, action }, tree),
            ) && session.stage == Stage::QueryingDrift,
        ensures
            self.lived(cli, origin, first) matches Some(
                (Plan::Continue { session: one, action: asked }, kept),
            ) ==> (self.lived(again, kept, second) matches Some(
                (Plan::Continue { session: two, action }, now),
            ) ==> (before_sync(two.stage) && (two.version is None || two.version == one.version)
                ==> now == kept && !mutates(action))),
        decreases second.len(),
    {
        self.links_are_set_right(cli, origin, first);
        match self.lived(cli, origin, first) {
            Some((Plan::Continue { session: one, action: asked }, kept)) => {
                match one.version {
                    Some(version) => {
                        self.request_is_of_stage(again, kept, second);
                        self.run_keeps_untouched(again, version, kept, second);
                    },
                    None => {},
                }
            },
            _ => {},
        }
    }

    /// The request of a faithful run is the one that its stage waits on.
    pub proof fn request_is_of_stage(&self, cli: Args, origin: Tree, exchanges: Seq<Exchange>)
        requires
            self.wf(),
        ensures
            self.lived(cli, origin, exchanges) matches Some(
                (Plan::Continue { session, action }, tree),
            ) ==> action == request(session.stage) && session.wf(),
        decreases exchanges.len(),
    {
        if exchanges.len() > 0 {
            self.request_is_of_stage(cli, origin, exchanges.drop_last());
            match self.lived(cli, origin, exchanges.drop_last()) {
                Some((Plan::Continue { session, action }, tree)) => {
                    self.next_keeps_wf(cli, session, exchanges.last().event);
                },
                _ => {},
            }
        }
    }

    /// A faithful run keeps a file system untouched whose links are right.
    pub proof fn run_keeps_untouched(
        &self,
        cli: Args,
        version: VersionEntry,
        kept: Tree,
        exchanges: Seq<Exchange>,
    )
        requires
            self.wf(),
            self.links_right(version, kept),
        ensures
            self.lived(cli, kept, exchanges) matches Some(
                (Plan::Continue { session, action }, tree),
            ) ==> self.untouched(version, kept, session, tree),
        decreases exchanges.len(),
    {
        if exchanges.len() > 0 {
            self.run_keeps_untouched(cli, version, kept, exchanges.drop_last());
            match self.lived(cli, kept, exchanges.drop_last()) {
                Some((Plan::Continue { session, action }, tree)) => {
                    if self.faithful(session, tree, exchanges.last().event, exchanges.last().tree) {
                        self.step_keeps_untouched(
                            cli,
                            version,
                            kept,
                            session,
                            tree,
                            exchanges.last().event,
                            exchanges.last().tree,
                        );
                    }
                },
                _ => {},
            }
        }
    }

    /// The run that `events` drive from its start: where it stands after
    /// the last of them, or how it ended on one of them. The events that
    /// follow the end of a run count for nothing.
    pub open spec fn run(&self, cli: Args, events: Seq<Event>) -> Plan
        decreases events.len(),
    {
        if events.len() == 0 {
            Plan::Continue {
                session: Session { stage: Stage::Start, version: None },
                action: request(Stage::Start),
            }
        } else {
            match self.run(cli, events.drop_last()) {
                Plan::Continue { session, action } => self.next(cli, session, events.last()),
                Plan::Finished { result } => Plan::Finished { result },
            }
        }
    }

    /// A step keeps a session well formed: the version that a run picks is
    /// one of the catalog, and it stays with the run.
    #[verifier::rlimit(50)]
    pub proof fn next_keeps_wf(&self, cli: Args, session: Session, event: Event)
        requires
            self.wf(),
            session.wf(),
        ensures
            self.next(cli, session, event) matches Plan::Continue { session: then, action }
                ==> then.wf() && action == request(then.stage),
    {
    }

    /// The order of the stages is fixed: no step leads back. A step leads
    /// to a later stage or ends the run; only on a report of another kind
    /// than its request calls for does a run stay where it is, and ask
    /// again.
    #[verifier::rlimit(50)]
    pub proof fn no_step_leads_back(&self, cli: Args, session: Session, event: Event)
        ensures
            self.next(cli, session, event) matches Plan::Continue { session: then, action } ==> {
                &&& then.stage.rank() >= session.stage.rank()
                &&& then.stage.rank() == session.stage.rank() ==> then == session
            },
    {
    }

    /// No stage is gone through twice: on a faithful report a run moves on
    /// or ends.
    #[verifier::rlimit(50)]
    pub proof fn faithful_step_moves_on(
        &self,
        cli: Args,
        session: Session,
        before: Tree,
        event: Event,
        after: Tree,
    )
        requires
            self.faithful(session, before, event, after),
        ensures
            self.next(cli, session, event) matches Plan::Continue { session: then, action }
                ==> then.stage.rank() > session.stage.rank(),
    {
    }

    /// Every run ends: a run whose reports are faithful has taken as many
    /// steps as its stage is far from the start, at the most, and there
    /// are twenty-six stages to go through.
    pub proof fn runs_end(&self, cli: Args, origin: Tree, exchanges: Seq<Exchange>)
        ensures
            self.lived(cli, origin, exchanges) matches Some((plan, tree)) ==> {
                &&& exchanges.len() <= 27
                &&& plan matches Plan::Continue { session, action } ==> exchanges.len()
                    <= session.stage.rank()
            },
        decreases exchanges.len(),
    {
        if exchanges.len() > 0 {
            self.runs_end(cli, origin, exchanges.drop_last());
            match self.lived(cli, origin, exchanges.drop_last()) {
                Some((Plan::Continue { session, action }, tree)) => {
                    if self.faithful(session, tree, exchanges.last().event, exchanges.last().tree) {
                        self.faithful_step_moves_on(
                            cli,
                            session,
                            tree,
                            exchanges.last().event,
                            exchanges.last().tree,
                        );
                    }
                },
                _ => {},
            }
        }
    }

    /// A step that fails a tool ends the run. A module install or an
    /// interactive configuration that exits with a failure is fatal, and so
    /// is a build that exits with one. A build whose output cannot be read,
    /// or that cannot be started or awaited, is fatal as well: the run ends
    /// on that report and asks for nothing more.
    #[verifier::rlimit(50)]
    pub proof fn failed_tools_are_fatal(&self, cli: Args, session: Session, event: Event)
        ensures
            session.stage == Stage::InstallingModules || session.stage == Stage::Building ==> (
            match event {
                Event::Exited { success: false, code } => self.next(cli, session, event) == (
                Plan::Finished { result: Err(Failure::KernelBuildFail(Cause::Status { code })) }),
                Event::Failed(e) => self.next(cli, session, event) == (Plan::Finished {
                    result: Err(Failure::KernelBuildFail(Cause::Io(e))),
                }),
                _ => true,
            }),
            session.stage == Stage::Menuconfig ==> (match event {
                Event::Exited { success: false, code } => self.next(cli, session, event) == (
                Plan::Finished { result: Err(Failure::MenuconfigError) }),
                Event::Failed(e) => self.next(cli, session, event) == (Plan::Finished {
                    result: Err(Failure::MenuconfigError),
                }),
                _ => true,
            }),
            session.stage == Stage::ResolvingDrift ==> (match event {
                Event::Exited { success: false, code } => self.next(cli, session, event) == (
                Plan::Finished { result: Err(Failure::KernelConfigUpdateError) }),
                _ => true,
            }),
    {
    }

    /// No step begins to keep a last artifact where none is to be kept:
    /// where the caller asked to replace outright, or the settings do not
    /// ask to keep, a step leads to one of the rotating stages only from
    /// such a stage.
    #[verifier::rlimit(50)]
    pub proof fn no_rotation_begins_unasked(&self, cli: Args, session: Session, event: Event)
        requires
            !self.config.keeps_last(cli.replace),
            !rotating(session.stage),
        ensures
            self.next(cli, session, event) matches Plan::Continue { session: then, action }
                ==> !rotating(then.stage) && !writes(action, Place::KernelBackup) && !writes(
                action,
                Place::InitramfsBackup,
            ),
    {
    }

    /// With an outright replace, or without the setting to keep, no run
    /// ever asks to write a backup of an artifact, whatever is reported to
    /// it.
    pub proof fn replace_makes_no_backup(&self, cli: Args, events: Seq<Event>)
        requires
            !self.config.keeps_last(cli.replace),
        ensures
            self.run(cli, events) matches Plan::Continue { session, action } ==> !rotating(
                session.stage,
            ) && !writes(action, Place::KernelBackup) && !writes(action, Place::InitramfsBackup),
        decreases events.len(),
    {
        if events.len() > 0 {
            self.replace_makes_no_backup(cli, events.drop_last());
            match self.run(cli, events.drop_last()) {
                Plan::Continue { session, action } => {
                    self.no_rotation_begins_unasked(cli, session, events.last());
                },
                Plan::Finished { result } => {},
            }
        }
    }
}

} // verus!
