//! What the command line asks of a run.

use crate::tools::texts;
use vstd::prelude::*;

verus! {

/// The argument list of the `pico_args` crate. The library hands it the
/// arguments and asks it which flags are among them.
#[verifier::external_type_specification]
#[verifier::external_body]
pub struct ExArguments(pico_args::Arguments);

/// The arguments that an argument list still holds, in their order.
pub uninterp spec fn remaining(args: pico_args::Arguments) -> Seq<Seq<char>>;

/// The flags of a run.
#[derive(Clone, Copy, Debug, PartialEq, Eq)]
pub struct Args {
    /// Skip the build, and with it the install of the kernel image.
    pub no_build: bool,
    /// Skip generating the initramfs.
    pub no_initramfs: bool,
    /// Skip installing the kernel modules.
    pub no_modules: bool,
    /// Open the interactive configuration before the build.
    pub menuconfig: bool,
    /// Replace the installed artifacts outright, whatever the settings say
    /// of keeping the last ones.
    pub replace: bool,
}

/// What a command line asks for.
#[derive(Clone, Copy, Debug, PartialEq, Eq)]
pub enum Request {
    /// The help text, and nothing else.
    Help,
    /// The version of the program, and nothing else.
    Version,
    /// A run with these flags.
    Run(Args),
}

/// `list` once one of two flags was looked for in it: without the first
/// occurrence of `first`, or, where `first` does not occur, without the
/// first occurrence of `second`.
pub open spec fn without(list: Seq<Seq<char>>, first: Seq<char>, second: Seq<char>) -> Seq<
    Seq<char>,
> {
    if list.contains(first) {
        list.remove_value(first)
    } else {
        list.remove_value(second)
    }
}

/// What the arguments `argv` ask for. A request for help comes before one
/// for the version, and both before the flags of a run.
pub open spec fn parsed(argv: Seq<Seq<char>>) -> Request {
    if argv.contains("-h"@) || argv.contains("--help"@) {
        Request::Help
    } else if argv.contains("-v"@) || argv.contains("--version"@) {
        Request::Version
    } else {
        Request::Run(
            Args {
                no_build: argv.contains("--no-build"@),
                no_initramfs: argv.contains("--no-initramfs"@),
                no_modules: argv.contains("--no-modules"@),
                menuconfig: argv.contains("--menuconfig"@),
                replace: argv.contains("--replace"@),
            },
        )
    }
}

/// An argument list of `argv`, made by `pico_args::Arguments::from_vec`,
/// which keeps the arguments as they are given.
#[verifier::external_body]
fn arguments_from(argv: Vec<String>) -> (args: pico_args::Arguments)
    ensures
        remaining(args) == texts(argv@),
{
    pico_args::Arguments::from_vec(argv.into_iter().map(|arg| arg.into()).collect())
}

/// Whether the flag `short` or its long form `long` is among the arguments,
/// by `pico_args::Arguments::contains` with a pair of keys. The first
/// occurrence of `short` is taken out of the list; where there is none, the
/// first occurrence of `long`.
#[verifier::external_body]
fn contains_either(args: &mut pico_args::Arguments, short: &'static str, long: &'static str) -> (found:
    bool)
    requires
        short@.len() == 2,
        short@[0] == '-',
        short@[1] != '-',
        long@.len() > 2,
        long@[0] == '-',
        long@[1] == '-',
    ensures
        found == (remaining(*old(args)).contains(short@) || remaining(*old(args)).contains(long@)),
        remaining(*final(args)) == without(remaining(*old(args)), short@, long@),
{
    args.contains([short, long])
}

/// Whether the flag `key` is among the arguments, by
/// `pico_args::Arguments::contains` with one key. Its first occurrence is
/// taken out of the list.
#[verifier::external_body]
fn contains_flag(args: &mut pico_args::Arguments, key: &'static str) -> (found: bool)
    requires
        key@.len() > 2,
        key@[0] == '-',
        key@[1] == '-',
    ensures
        found == remaining(*old(args)).contains(key@),
        remaining(*final(args)) == remaining(*old(args)).remove_value(key@),
{
    args.contains(key)
}

/// Looking for a value in a list that does not hold it leaves the list as
/// it is.
pub proof fn lemma_absent_stays(list: Seq<Seq<char>>, key: Seq<char>)
    requires
        !list.contains(key),
    ensures
        list.remove_value(key) == list,
{
    list.index_of_first_ensures(key);
}

/// Taking the first occurrence of one value out of a list does not change
/// whether another value occurs in it.
pub proof fn lemma_other_stays(list: Seq<Seq<char>>, gone: Seq<char>, key: Seq<char>)
    requires
        gone != key,
    ensures
        list.remove_value(gone).contains(key) == list.contains(key),
{
    list.index_of_first_ensures(gone);
    match list.index_of_first(gone) {
        None => {},
        Some(at) => {
            let rest = list.remove(at);
            list.remove_ensures(at);
            if list.contains(key) {
                let i = choose|i: int| 0 <= i < list.len() && list[i] == key;
                if i < at {
                    assert(rest[i] == key);
                } else {
                    assert(rest[i - 1] == key);
                }
            }
            if rest.contains(key) {
                let j = choose|j: int| 0 <= j < rest.len() && rest[j] == key;
                if j < at {
                    assert(list[j] == key);
                } else {
                    assert(list[j + 1] == key);
                }
            }
        },
    }
}

impl Args {
    /// What the arguments of the program, without its name, ask for.
    #[must_use]
    pub fn parse_args(argv: Vec<String>) -> (request: Request)
        ensures
            request == parsed(texts(argv@)),
    {
        let ghost given = texts(argv@);
        let mut pargs = arguments_from(argv);
        proof {
            reveal_strlit("-h");
            reveal_strlit("--help");
            reveal_strlit("-v");
            reveal_strlit("--version");
            reveal_strlit("--no-build");
            reveal_strlit("--no-initramfs");
            reveal_strlit("--no-modules");
            reveal_strlit("--menuconfig");
            reveal_strlit("--replace");
        }
        if contains_either(&mut pargs, "-h", "--help") {
            return Request::Help;
        }
        proof {
            lemma_absent_stays(given, "--help"@);
        }
        if contains_either(&mut pargs, "-v", "--version") {
            return Request::Version;
        }
        proof {
            lemma_absent_stays(given, "--version"@);
        }
        let no_build = contains_flag(&mut pargs, "--no-build");
        let ghost first = remaining(pargs);
        let no_initramfs = contains_flag(&mut pargs, "--no-initramfs");
        let ghost second = remaining(pargs);
        let no_modules = contains_flag(&mut pargs, "--no-modules");
        let ghost third = remaining(pargs);
        let menuconfig = contains_flag(&mut pargs, "--menuconfig");
        let ghost fourth = remaining(pargs);
        let replace = contains_flag(&mut pargs, "--replace");
        proof {
            assert("--no-build"@[5] != "--no-initramfs"@[5]);
            assert("--no-build"@[5] != "--no-modules"@[5]);
            assert("--no-build"@[2] != "--menuconfig"@[2]);
            assert("--no-build"@[2] != "--replace"@[2]);
            assert("--no-initramfs"@[5] != "--no-modules"@[5]);
            assert("--no-initramfs"@[2] != "--menuconfig"@[2]);
            assert("--no-initramfs"@[2] != "--replace"@[2]);
            assert("--no-modules"@[2] != "--menuconfig"@[2]);
            assert("--no-modules"@[2] != "--replace"@[2]);
            assert("--menuconfig"@[2] != "--replace"@[2]);
            lemma_other_stays(given, "--no-build"@, "--no-initramfs"@);
            lemma_other_stays(given, "--no-build"@, "--no-modules"@);
            lemma_other_stays(given, "--no-build"@, "--menuconfig"@);
            lemma_other_stays(given, "--no-build"@, "--replace"@);
            lemma_other_stays(first, "--no-initramfs"@, "--no-modules"@);
            lemma_other_stays(first, "--no-initramfs"@, "--menuconfig"@);
            lemma_other_stays(first, "--no-initramfs"@, "--replace"@);
            lemma_other_stays(second, "--no-modules"@, "--menuconfig"@);
            lemma_other_stays(second, "--no-modules"@, "--replace"@);
            lemma_other_stays(third, "--menuconfig"@, "--replace"@);
        }
        Request::Run(Args { no_build, no_initramfs, no_modules, menuconfig, replace })
    }
}

} // verus!
