//! The programs that a run starts, and what it tells the user meanwhile.

use crate::builder::{KernelBuilder, Session};
use crate::path::append;
use crate::plan::{Question, Tool};
use crate::text::{decimal, decimal_text, lowered, to_lower};
use vstd::prelude::*;

verus! {

/// What a standard stream of a started program is connected to.
#[derive(Clone, Copy, Debug, PartialEq, Eq)]
pub enum Channel {
    /// The stream of the caller.
    Inherit,
    /// A pipe to the caller.
    Piped,
    /// Nothing.
    Null,
}

/// A program to start.
#[derive(Debug, PartialEq, Eq)]
pub struct Command {
    /// The program's name.
    pub program: String,
    /// Its arguments.
    pub args: Vec<String>,
    /// The directory to start it in.
    pub dir: String,
    pub stdin: Channel,
    pub stdout: Channel,
    pub stderr: Channel,
}

/// A [`Command`] as contracts see it.
pub struct Invocation {
    pub program: Seq<char>,
    pub args: Seq<Seq<char>>,
    pub dir: Seq<char>,
    pub stdin: Channel,
    pub stdout: Channel,
    pub stderr: Channel,
}

impl View for Command {
    type V = Invocation;

    open spec fn view(&self) -> Invocation {
        Invocation {
            program: self.program@,
            args: texts(self.args@),
            dir: self.dir@,
            stdin: self.stdin,
            stdout: self.stdout,
            stderr: self.stderr,
        }
    }
}

/// How many jobs the build runs at once: as many as the host has execution
/// units, and one where that number is unknown.
pub open spec fn jobs(parallelism: Option<usize>) -> nat {
    match parallelism {
        Some(units) => if units == 0 {
            1
        } else {
            units as nat
        },
        None => 1,
    }
}

/// The arguments of a command as contracts see them.
pub open spec fn texts(args: Seq<String>) -> Seq<Seq<char>> {
    args.map_values(|arg: String| arg@)
}

/// A command as contracts see it, where there is one.
pub open spec fn invocation_of(command: Option<Command>) -> Option<Invocation> {
    match command {
        Some(command) => Some(command@),
        None => None,
    }
}

/// A text, where there is one, as contracts see it.
pub open spec fn message_of(text: Option<String>) -> Option<Seq<char>> {
    match text {
        Some(text) => Some(text@),
        None => None,
    }
}

impl Tool {
    /// The program and arguments of the build tool's invocations, and the
    /// streams of each. `None` for the initramfs generator, whose arguments
    /// depend on the run.
    pub open spec fn make_line(&self, parallelism: Option<usize>) -> Option<
        (Seq<Seq<char>>, Channel, Channel, Channel),
    > {
        match *self {
            Tool::ListNewConfigs => Some(
                (seq!["listnewconfigs"@], Channel::Null, Channel::Piped, Channel::Piped),
            ),
            Tool::OldDefConfig => Some(
                (seq!["olddefconfig"@], Channel::Inherit, Channel::Inherit, Channel::Inherit),
            ),
            Tool::Menuconfig => Some(
                (seq!["menuconfig"@], Channel::Inherit, Channel::Inherit, Channel::Inherit),
            ),
            Tool::Make => Some(
                (
                    seq!["-j"@, decimal(jobs(parallelism))],
                    Channel::Piped,
                    Channel::Piped,
                    Channel::Inherit,
                ),
            ),
            Tool::ModulesInstall => Some(
                (seq!["modules_install"@], Channel::Inherit, Channel::Null, Channel::Null),
            ),
            Tool::Dracut => None,
        }
    }

    /// What the user is told of a line that the tool wrote, for the tools
    /// whose output is followed line by line.
    pub open spec fn status_text(&self, line: Seq<char>) -> Option<Seq<char>> {
        match *self {
            Tool::Make => Some("Compiling kernel: "@ + lowered(line)),
            Tool::Dracut => Some("Generating initramfs: "@ + line),
            _ => None,
        }
    }

    /// What the user is told when the tool starts.
    pub open spec fn start_text(&self) -> Option<Seq<char>> {
        match *self {
            Tool::ModulesInstall => Some("Install kernel modules"@),
            _ => None,
        }
    }

    /// What the user is told when the tool has ended.
    pub open spec fn finish_text(&self) -> Option<Seq<char>> {
        match *self {
            Tool::Make => Some("Finished compiling Kernel"@),
            Tool::ModulesInstall => Some("Finished installing modules"@),
            Tool::Dracut => Some("Finished initramfs"@),
            _ => None,
        }
    }

    /// Whether all of the tool's output is handed to the run, as
    /// `Event::Output`, rather than its exit.
    pub open spec fn captures(&self) -> bool {
        *self == Tool::ListNewConfigs
    }

    /// What the user is told of a line that the tool wrote.
    pub fn status_line(&self, line: &str) -> (status: Option<String>)
        ensures
            message_of(status) == self.status_text(line@),
    {
        match self {
            Tool::Make => {
                let low = to_lower(line);
                Some(append("Compiling kernel: ", low.as_str()))
            },
            Tool::Dracut => Some(append("Generating initramfs: ", line)),
            _ => None,
        }
    }

    /// What the user is told when the tool starts.
    pub fn start_message(&self) -> (message: Option<String>)
        ensures
            message_of(message) == self.start_text(),
    {
        match self {
            Tool::ModulesInstall => Some(String::from_str("Install kernel modules")),
            _ => None,
        }
    }

    /// What the user is told when the tool has ended.
    pub fn finish_message(&self) -> (message: Option<String>)
        ensures
            message_of(message) == self.finish_text(),
    {
        match self {
            Tool::Make => Some(String::from_str("Finished compiling Kernel")),
            Tool::ModulesInstall => Some(String::from_str("Finished installing modules")),
            Tool::Dracut => Some(String::from_str("Finished initramfs")),
            _ => None,
        }
    }

    /// Whether all of the tool's output is handed to the run.
    pub fn collects_output(&self) -> (collects: bool)
        ensures
            collects == self.captures(),
    {
        match self {
            Tool::ListNewConfigs => true,
            _ => false,
        }
    }
}

impl Question {
    /// The words of the question.
    pub open spec fn text(&self) -> Seq<char> {
        match *self {
            Question::ContinueBuild => "Continue build process?"@,
            Question::InstallModules => "Do you want to install kernel modules?"@,
            Question::GenerateInitramfs => "Do you want to generate initramfs with dracut?"@,
        }
    }

    /// The words of the question.
    pub fn prompt(&self) -> (words: String)
        ensures
            words@ == self.text(),
    {
        match self {
            Question::ContinueBuild => String::from_str("Continue build process?"),
            Question::InstallModules => String::from_str(
                "Do you want to install kernel modules?",
            ),
            Question::GenerateInitramfs => String::from_str(
                "Do you want to generate initramfs with dracut?",
            ),
        }
    }
}

/// How many jobs the build runs at once.
pub fn job_count(parallelism: Option<usize>) -> (count: usize)
    ensures
        count == jobs(parallelism),
{
    match parallelism {
        Some(units) => if units == 0 {
            1
        } else {
            units
        },
        None => 1,
    }
}

/// One argument as a list.
fn one(arg: &str) -> (args: Vec<String>)
    ensures
        texts(args@) == seq![arg@],
{
    let mut args: Vec<String> = Vec::new();
    args.push(String::from_str(arg));
    assert(texts(args@) =~= seq![arg@]);
    args
}

/// Adds one argument to a list.
fn push_arg(args: &mut Vec<String>, arg: String)
    ensures
        texts(final(args)@) == texts(old(args)@).push(arg@),
{
    args.push(arg);
    assert(texts(args@) =~= texts(old(args)@).push(arg@));
}

impl KernelBuilder {
    /// The names that the user picks a version by: those of the catalog,
    /// in its order.
    pub open spec fn label_texts(&self) -> Seq<Seq<char>> {
        Seq::new(self.versions@.len(), |i: int| self.versions@[i].version_string@)
    }

    /// The index that the pick starts at: that of the last version.
    pub open spec fn default_index(&self) -> nat {
        if self.versions@.len() == 0 {
            0
        } else {
            (self.versions@.len() - 1) as nat
        }
    }

    /// The names that the user picks a version by.
    pub fn labels(&self) -> (labels: Vec<String>)
        ensures
            texts(labels@) == self.label_texts(),
    {
        let mut labels: Vec<String> = Vec::new();
        let mut i: usize = 0;
        while i < self.versions.len()
            invariant
                i <= self.versions@.len(),
                labels@.len() == i,
                forall|j: int| 0 <= j < i ==> labels@[j]@ == self.versions@[j].version_string@,
            decreases self.versions@.len() - i,
        {
            labels.push(self.versions[i].version_string.clone());
            i = i + 1;
        }
        assert(texts(labels@) =~= self.label_texts());
        labels
    }

    /// The index that the pick starts at.
    pub fn default_choice(&self) -> (choice: usize)
        ensures
            choice == self.default_index(),
    {
        if self.versions.len() == 0 {
            0
        } else {
            self.versions.len() - 1
        }
    }

    /// What the user is asked when picking a version.
    pub fn select_prompt() -> (words: String)
        ensures
            words@ == "Pick version to build and install"@,
    {
        String::from_str("Pick version to build and install")
    }

    /// The command that starts `tool` in the run `session`: in the version
    /// directory, with the arguments and streams of the tool. The initramfs
    /// generator is told to build for this host only, for the kernel
    /// version of the picked source tree, and to overwrite the installed
    /// initramfs. There is no command before a version is picked, nor for
    /// the generator where the settings name no initramfs.
    pub open spec fn invocation(
        &self,
        session: Session,
        tool: Tool,
        parallelism: Option<usize>,
    ) -> Option<Invocation> {
        match session.version {
            None => None,
            Some(version) => match tool.make_line(parallelism) {
                Some((args, stdin, stdout, stderr)) => Some(
                    Invocation { program: "make"@, args, dir: version.path@, stdin, stdout, stderr },
                ),
                None => match self.config.initramfs_file_path {
                    None => None,
                    Some(initramfs) => Some(
                        Invocation {
                            program: "dracut"@,
                            args: seq![
                                "--hostonly"@,
                                "--kver"@,
                                version.kernel_version_text(),
                                "--force"@,
                                initramfs@,
                            ],
                            dir: version.path@,
                            stdin: Channel::Inherit,
                            stdout: Channel::Piped,
                            stderr: Channel::Null,
                        },
                    ),
                },
            },
        }
    }

    /// The command that starts `tool` in the run `session`, where there is
    /// one. `parallelism` is the number of execution units of the host, if
    /// it is known.
    pub fn command(&self, session: &Session, tool: Tool, parallelism: Option<usize>) -> (command:
        Option<Command>)
        ensures
            invocation_of(command) == self.invocation(*session, tool, parallelism),
    {
        let version = match &session.version {
            Some(version) => version,
            None => {
                return None;
            },
        };
        let dir = version.path.clone();
        let make = String::from_str("make");
        let command = match tool {
            Tool::ListNewConfigs => Command {
                program: make,
                args: one("listnewconfigs"),
                dir,
                stdin: Channel::Null,
                stdout: Channel::Piped,
                stderr: Channel::Piped,
            },
            Tool::OldDefConfig => Command {
                program: make,
                args: one("olddefconfig"),
                dir,
                stdin: Channel::Inherit,
                stdout: Channel::Inherit,
                stderr: Channel::Inherit,
            },
            Tool::Menuconfig => Command {
                program: make,
                args: one("menuconfig"),
                dir,
                stdin: Channel::Inherit,
                stdout: Channel::Inherit,
                stderr: Channel::Inherit,
            },
            Tool::Make => {
                let mut args = one("-j");
                push_arg(&mut args, decimal_text(job_count(parallelism)));
                assert(texts(args@) =~= seq!["-j"@, decimal(jobs(parallelism))]);
                Command {
                    program: make,
                    args,
                    dir,
                    stdin: Channel::Piped,
                    stdout: Channel::Piped,
                    stderr: Channel::Inherit,
                }
            },
            Tool::ModulesInstall => Command {
                program: make,
                args: one("modules_install"),
                dir,
                stdin: Channel::Inherit,
                stdout: Channel::Null,
                stderr: Channel::Null,
            },
            Tool::Dracut => {
                let initramfs = match &self.config.initramfs_file_path {
                    Some(initramfs) => initramfs,
                    None => {
                        return None;
                    },
                };
                let mut args = one("--hostonly");
                push_arg(&mut args, String::from_str("--kver"));
                push_arg(&mut args, version.kernel_version());
                push_arg(&mut args, String::from_str("--force"));
                push_arg(&mut args, initramfs.clone());
                assert(texts(args@) =~= seq![
                    "--hostonly"@,
                    "--kver"@,
                    version.kernel_version_text(),
                    "--force"@,
                    initramfs@,
                ]);
                Command {
                    program: String::from_str("dracut"),
                    args,
                    dir,
                    stdin: Channel::Inherit,
                    stdout: Channel::Piped,
                    stderr: Channel::Null,
                }
            },
        };
        Some(command)
    }
}

} // verus!
