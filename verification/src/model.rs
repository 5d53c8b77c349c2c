//! A file system as the laws of a run see it.
//!
//! The library never touches a file system: its caller does. To say what a
//! run achieves, one has to say what the caller's reports mean. This model
//! holds regular files, symbolic links and directories by their paths. It
//! knows no hard links and no relative paths, and it looks at the entry that
//! a path names, never through a link.

use crate::builder::{KernelBuilder, Plan, Session};
use crate::cli::Args;
use crate::plan::{request, Action, Event, Place, Stage};
use vstd::prelude::*;

verus! {

/// An entry of the file system.
pub enum Node {
    /// A regular file and its bytes.
    File(Seq<u8>),
    /// A symbolic link and the path that it points at.
    Link(Seq<char>),
    /// A directory.
    Dir,
}

/// The entries of a file system by their paths.
pub type Tree = Map<Seq<char>, Node>;

/// One report and the file system that the request left behind.
pub struct Exchange {
    pub event: Event,
    pub tree: Tree,
}

/// Whether `action` changes the entry at `place`.
pub open spec fn writes(action: Action, place: Place) -> bool {
    match action {
        Action::Remove(at) => at == place,
        Action::Symlink { target, link } => link == place,
        Action::Copy { from, to } => to == place,
        _ => false,
    }
}

/// Whether `action` changes the file system at all.
pub open spec fn mutates(action: Action) -> bool {
    action is Remove || action is Symlink || action is Copy
}

/// The file system once a copy of `from` to `to` has succeeded. Copying a
/// file onto itself empties it: the destination is cut off before the
/// source is read.
pub open spec fn copied(tree: Tree, from: Seq<char>, to: Seq<char>) -> Tree {
    if from == to {
        tree.insert(to, Node::File(Seq::empty()))
    } else {
        tree.insert(to, tree[from])
    }
}

impl KernelBuilder {
    /// The run that `exchanges` drive from its start on the file system
    /// `origin`: where it stands after the last of them, and what the file
    /// system holds then. `None` where a report is not faithful, or comes
    /// after the end of the run.
    pub open spec fn lived(&self, cli: Args, origin: Tree, exchanges: Seq<Exchange>) -> Option<
        (Plan, Tree),
    >
        decreases exchanges.len(),
    {
        if exchanges.len() == 0 {
            Some(
                (
                    Plan::Continue {
                        session: Session { stage: Stage::Start, version: None },
                        action: request(Stage::Start),
                    },
                    origin,
                ),
            )
        } else {
            match self.lived(cli, origin, exchanges.drop_last()) {
                Some((Plan::Continue { session, action }, tree)) => if self.faithful(
                    session,
                    tree,
                    exchanges.last().event,
                    exchanges.last().tree,
                ) {
                    Some((self.next(cli, session, exchanges.last().event), exchanges.last().tree))
                } else {
                    None
                },
                _ => None,
            }
        }
    }

    /// Whether `event` is a report that a file system in the state `before`
    /// can give on the request of `session`, leaving the state `after`.
    ///
    /// A look changes nothing and tells what is there. A change that is
    /// reported done was made as asked for. Any request can fail; after a
    /// change that failed, and after a tool, the state is anyone's guess.
    pub open spec fn faithful(&self, session: Session, before: Tree, event: Event, after: Tree) -> bool {
        if session.stage == Stage::Start {
            after == before
        } else {
            match request(session.stage) {
                Action::Select => after == before && match event {
                    Event::Selected(Some(choice)) => choice < self.versions@.len(),
                    Event::Selected(None) => true,
                    Event::Failed(_) => true,
                    _ => false,
                },
                Action::Confirm(_) => after == before && (event is Answer || event is Failed),
                Action::Run(tool) => if tool.captures() {
                    event is Output || event is Failed
                } else {
                    event is Exited || event is Failed
                },
                Action::ReadLink(place) => after == before && match event {
                    Event::LinkTarget(Some(target)) => self.place(session, place) matches Some(path)
                        && before.dom().contains(path) && before[path] == Node::Link(target@),
                    Event::LinkTarget(None) => self.place(session, place) matches Some(path)
                        && !before.dom().contains(path),
                    Event::Failed(_) => true,
                    _ => false,
                },
                Action::Exists(place) => after == before && match event {
                    Event::Found(found) => self.place(session, place) matches Some(path) && found
                        == before.dom().contains(path),
                    Event::Failed(_) => true,
                    _ => false,
                },
                Action::IsFile(place) => after == before && match event {
                    Event::Found(found) => self.place(session, place) matches Some(path) && found
                        == (before.dom().contains(path) && before[path] is File),
                    Event::Failed(_) => true,
                    _ => false,
                },
                Action::Remove(place) => match event {
                    Event::Done => self.place(session, place) matches Some(path)
                        && before.dom().contains(path) && after == before.remove(path),
                    Event::Failed(_) => true,
                    _ => false,
                },
                Action::Symlink { target, link } => match event {
                    Event::Done => self.place(session, target) matches Some(to) && self.place(
                        session,
                        link,
                    ) matches Some(at) && !before.dom().contains(at) && after == before.insert(
                        at,
                        Node::Link(to),
                    ),
                    Event::Failed(_) => true,
                    _ => false,
                },
                Action::Copy { from, to } => match event {
                    Event::Done => self.place(session, from) matches Some(source) && self.place(
                        session,
                        to,
                    ) matches Some(target) && before.dom().contains(source) && before[source] is File
                        && after == copied(before, source, target),
                    Event::Failed(_) => true,
                    _ => false,
                },
            }
        }
    }
}

} // verus!
