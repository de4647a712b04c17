use vstd::prelude::*;
use crate::log::texts;

verus! {

/// What the launcher was asked to run and to watch.
#[derive(Debug)]
pub struct RunnerArgs {
    /// The command line to spawn.
    pub cmd: String,
    /// The connection string of the database to inspect.
    pub db: String,
}

/// The kinds of database that a connection string may point to.
#[derive(Clone, Copy, Debug, PartialEq, Eq, Structural)]
pub enum Database {
    Postgres,
    Mysql,
    Mssql,
}

/// The options that take a value.
#[derive(Clone, Copy, Debug, PartialEq, Eq, Structural)]
pub enum CliOption {
    Cmd,
    Db,
}

/// Why an option's value could not be had.
#[derive(Clone, Copy, Debug, PartialEq, Eq, Structural)]
pub enum OptionError {
    /// The option is not among the arguments.
    Missing,
    /// The option is the last argument.
    WithoutValue,
    /// The value is not text.
    Unreadable,
}

/// A command line that cannot be run.
#[derive(Clone, Copy, Debug, PartialEq, Eq, Structural)]
pub struct ArgError {
    pub option: CliOption,
    pub reason: OptionError,
}

/// What a command line asks for.
#[derive(Debug)]
pub enum Parsed {
    /// Print the help text and leave.
    Help,
    /// Run the dashboard.
    Run(RunnerArgs),
}

/// A parsed command line as a plain value.
pub enum ParsedView {
    Help,
    Run { cmd: Seq<char>, db: Seq<char> },
}

impl View for Parsed {
    type V = ParsedView;

    open spec fn view(&self) -> ParsedView {
        match *self {
            Parsed::Help => ParsedView::Help,
            Parsed::Run(args) => ParsedView::Run { cmd: args.cmd@, db: args.db@ },
        }
    }
}

/// The index of the first argument equal to `key`, or the number of
/// arguments where none is.
pub open spec fn position(args: Seq<Seq<char>>, key: Seq<char>) -> int
    decreases args.len(),
{
    if args.len() == 0 {
        0
    } else if args[0] == key {
        0
    } else {
        1 + position(args.drop_first(), key)
    }
}

/// Where a flag with a short and a long spelling is found: at the first
/// short spelling if there is one, else at the first long one, else at the
/// number of arguments.
pub open spec fn flag_position(args: Seq<Seq<char>>, short: Seq<char>, long: Seq<char>) -> int {
    if position(args, short) < args.len() {
        position(args, short)
    } else {
        position(args, long)
    }
}

/// `args` without the argument at `i`, or `args` where `i` is no index.
pub open spec fn without(args: Seq<Seq<char>>, i: int) -> Seq<Seq<char>> {
    if 0 <= i < args.len() {
        args.remove(i)
    } else {
        args
    }
}

/// A short key: a dash and one other character.
pub open spec fn is_short_key(key: Seq<char>) -> bool {
    key.len() == 2 && key[0] == '-' && key[1] != '-'
}

/// A long key: two dashes and a name.
pub open spec fn is_long_key(key: Seq<char>) -> bool {
    key.len() > 2 && key[0] == '-' && key[1] == '-'
}

/// The value of the option `key`: the argument after its first occurrence.
pub open spec fn option_value(args: Seq<Seq<char>>, key: Seq<char>) -> Result<
    Seq<char>,
    OptionError,
> {
    let p = position(args, key);
    if p >= args.len() {
        Err(OptionError::Missing)
    } else if p + 1 == args.len() {
        Err(OptionError::WithoutValue)
    } else {
        Ok(args[p + 1])
    }
}

/// What stays of `args` once the value of `key` was taken: option and value
/// are gone where the value was found, and nothing is otherwise.
pub open spec fn after_option(args: Seq<Seq<char>>, key: Seq<char>) -> Seq<Seq<char>> {
    let p = position(args, key);
    if p + 1 < args.len() {
        args.remove(p + 1).remove(p)
    } else {
        args
    }
}

/// What a command line asks for. A help flag anywhere wins. Otherwise the
/// command is the value of `--cmd`, and the connection string is the value
/// of `--db` among the arguments that are left without the command and its
/// option. Arguments beyond these are ignored.
pub open spec fn parse(args: Seq<Seq<char>>) -> Result<ParsedView, ArgError> {
    if flag_position(args, "-h"@, "--help"@) < args.len() {
        Ok(ParsedView::Help)
    } else {
        match option_value(args, "--cmd"@) {
            Err(reason) => Err(ArgError { option: CliOption::Cmd, reason }),
            Ok(cmd) => match option_value(after_option(args, "--cmd"@), "--db"@) {
                Err(reason) => Err(ArgError { option: CliOption::Db, reason }),
                Ok(db) => Ok(ParsedView::Run { cmd, db }),
            },
        }
    }
}

/// `pico_args::Arguments`, the parser that holds the arguments not yet
/// taken. Nothing is known of a value but what the functions below say.
#[verifier::external_type_specification]
#[verifier::external_body]
pub struct ExArguments(pico_args::Arguments);

/// The arguments that a `pico_args::Arguments` holds, in order, each as its
/// text.
pub uninterp spec fn arguments(a: pico_args::Arguments) -> Seq<Seq<char>>;

/// Whether every argument that a `pico_args::Arguments` holds is valid
/// UTF-8, so that `arguments` gives it as it is.
pub uninterp spec fn all_text(a: pico_args::Arguments) -> bool;

/// `pico_args::Arguments::from_vec`: the parser holds the given arguments
/// in the given order. Made from strings, all of them are text.
#[verifier::external_body]
fn arguments_from(args: Vec<String>) -> (r: pico_args::Arguments)
    ensures
        arguments(r) == texts(args@),
        all_text(r),
{
    pico_args::Arguments::from_vec(args.into_iter().map(Into::into).collect())
}

/// `pico_args::Arguments::contains` with a pair of keys: it looks for an
/// argument equal to the short key, then for one equal to the long key,
/// removes the first that it finds and says whether it found one. The
/// conditions on the keys are those that the crate asserts of them.
#[verifier::external_body]
fn take_flag(
    args: &mut pico_args::Arguments,
    short: &'static str,
    long: &'static str,
) -> (found: bool)
    requires
        all_text(*old(args)),
        is_short_key(short@),
        is_long_key(long@),
    ensures
        found == (flag_position(arguments(*old(args)), short@, long@) < arguments(
            *old(args),
        ).len()),
        arguments(*final(args)) == without(
            arguments(*old(args)),
            flag_position(arguments(*old(args)), short@, long@),
        ),
        all_text(*final(args)),
{
    args.contains([short, long])
}

/// `pico_args::Arguments::value_from_str` for a `String` and one long key:
/// it looks for the first argument equal to the key and takes the argument
/// after it as the value, removing both. Where the key is absent or last,
/// it fails and removes nothing. Its other failures are for arguments that
/// are not text, and do not come where all are.
#[verifier::external_body]
fn take_value(args: &mut pico_args::Arguments, key: &'static str) -> (r: Result<String, OptionError>)
    requires
        all_text(*old(args)),
        is_long_key(key@),
    ensures
        match r {
            Ok(value) => option_value(arguments(*old(args)), key@) == Ok::<
                Seq<char>,
                OptionError,
            >(value@),
            Err(reason) => option_value(arguments(*old(args)), key@) == Err::<
                Seq<char>,
                OptionError,
            >(reason),
        },
        arguments(*final(args)) == after_option(arguments(*old(args)), key@),
        all_text(*final(args)),
{
    match args.value_from_str::<&'static str, String>(key) {
        Ok(value) => Ok(value),
        Err(pico_args::Error::MissingOption(_)) => Err(OptionError::Missing),
        Err(pico_args::Error::OptionWithoutAValue(_)) => Err(OptionError::WithoutValue),
        Err(_) => Err(OptionError::Unreadable),
    }
}

/// Reads a command line, given without the program's own name.
pub fn parse_args(args: Vec<String>) -> (r: Result<Parsed, ArgError>)
    ensures
        match r {
            Ok(parsed) => parse(texts(args@)) == Ok::<ParsedView, ArgError>(parsed@),
            Err(e) => parse(texts(args@)) == Err::<ParsedView, ArgError>(e),
        },
{
    proof {
        reveal_strlit("-h");
        reveal_strlit("--help");
        reveal_strlit("--cmd");
        reveal_strlit("--db");
    }
    let mut pargs = arguments_from(args);
    if take_flag(&mut pargs, "-h", "--help") {
        return Ok(Parsed::Help);
    }
    let cmd = match take_value(&mut pargs, "--cmd") {
        Ok(cmd) => cmd,
        Err(reason) => {
            return Err(ArgError { option: CliOption::Cmd, reason });
        },
    };
    let db = match take_value(&mut pargs, "--db") {
        Ok(db) => db,
        Err(reason) => {
            return Err(ArgError { option: CliOption::Db, reason });
        },
    };
    Ok(Parsed::Run(RunnerArgs { cmd, db }))
}

/// The exit code that an outcome of `parse_args` calls for, if it ends the
/// program.
pub fn exit_code(outcome: &Result<Parsed, ArgError>) -> (r: Option<i32>)
    ensures
        r == (match *outcome {
            Ok(Parsed::Help) => Some(0i32),
            Ok(Parsed::Run(_)) => None,
            Err(_) => Some(1i32),
        }),
{
    match outcome {
        Ok(Parsed::Help) => Some(0),
        Ok(Parsed::Run(_)) => None,
        Err(_) => Some(1),
    }
}

} // verus!
