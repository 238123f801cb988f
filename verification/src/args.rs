use vstd::prelude::*;
use vstd::string::*;

use crate::config::{opt_view, Config};

verus! {

broadcast use vstd::std_specs::vec::axiom_spec_len;

// The command line is a sequence of argument strings; the grammar takes the
// recognized options out of it one kind at a time, in a fixed order, and what
// remains must be exactly the one positional project name. An option key and
// its value are two separate arguments; a key may stand anywhere; of two
// spellings of the same option the short one is looked for first; a second
// occurrence of an option is not consumed and so ends up among the leftover
// arguments, which are an error.

/// The character sequences of a sequence of argument strings.
pub open spec fn views(args: Seq<String>) -> Seq<Seq<char>> {
    args.map_values(|a: String| a@)
}

/// The least index whose argument equals `k`, or `-1` if none does.
pub open spec fn first_index(s: Seq<Seq<char>>, k: Seq<char>) -> int
    decreases s.len(),
{
    if s.len() == 0 {
        -1
    } else if s[0] == k {
        0
    } else {
        let r = first_index(s.drop_first(), k);
        if r == -1 {
            -1
        } else {
            r + 1
        }
    }
}

pub proof fn lemma_first_index(s: Seq<Seq<char>>, k: Seq<char>)
    ensures
        first_index(s, k) == -1 ==> forall|j: int| 0 <= j < s.len() ==> s[j] != k,
        first_index(s, k) != -1 ==> 0 <= first_index(s, k) < s.len() && s[first_index(s, k)] == k,
    decreases s.len(),
{
    if s.len() > 0 && s[0] != k {
        lemma_first_index(s.drop_first(), k);
        if first_index(s, k) == -1 {
            assert forall|j: int| 0 <= j < s.len() implies s[j] != k by {
                if j > 0 {
                    assert(s.drop_first()[j - 1] == s[j]);
                }
            }
        }
    }
}

/// An argument equal to `k` with none before it pins `first_index`.
pub proof fn lemma_first_index_found(s: Seq<Seq<char>>, k: Seq<char>, i: int)
    requires
        0 <= i < s.len(),
        s[i] == k,
        forall|j: int| 0 <= j < i ==> s[j] != k,
    ensures
        first_index(s, k) == i,
    decreases i,
{
    if i > 0 {
        lemma_first_index_found(s.drop_first(), k, i - 1);
    }
}

/// No argument equal to `k` pins `first_index` to `-1`.
pub proof fn lemma_first_index_absent(s: Seq<Seq<char>>, k: Seq<char>)
    requires
        forall|j: int| 0 <= j < s.len() ==> s[j] != k,
    ensures
        first_index(s, k) == -1,
    decreases s.len(),
{
    if s.len() > 0 {
        lemma_first_index_absent(s.drop_first(), k);
    }
}

/// Taking a flag with key `k`: whether it was present, and the arguments
/// with its first occurrence removed.
pub open spec fn spec_take_flag(s: Seq<Seq<char>>, k: Seq<char>) -> (bool, Seq<Seq<char>>) {
    let i = first_index(s, k);
    if i == -1 {
        (false, s)
    } else {
        (true, s.remove(i))
    }
}

/// Taking a flag with two spellings: the first spelling is looked for over
/// the whole command line before the second is tried.
pub open spec fn spec_take_flag2(s: Seq<Seq<char>>, k1: Seq<char>, k2: Seq<char>) -> (
    bool,
    Seq<Seq<char>>,
) {
    let i = first_index(s, k1);
    if i == -1 {
        spec_take_flag(s, k2)
    } else {
        (true, s.remove(i))
    }
}

/// What taking an option's value with one key spelling yields.
pub ghost enum OptTake {
    /// The key does not occur; the arguments are unchanged.
    Absent,
    /// The key occurs and the next argument is its value; both are removed.
    Found { value: Seq<char>, rest: Seq<Seq<char>> },
    /// The key occurs as the last argument, with nothing after it to be its
    /// value.
    NoValue,
}

pub open spec fn spec_take_value(s: Seq<Seq<char>>, k: Seq<char>) -> OptTake {
    let i = first_index(s, k);
    if i == -1 {
        OptTake::Absent
    } else if i + 1 < s.len() {
        OptTake::Found { value: s[i + 1], rest: s.remove(i + 1).remove(i) }
    } else {
        OptTake::NoValue
    }
}

/// What taking an option with a short and a long spelling yields: the key
/// that lacked a value, or the value found under the first spelling present.
pub ghost enum PairTake {
    Value { value: Option<Seq<char>>, rest: Seq<Seq<char>> },
    NoValue { key: Seq<char> },
}

pub open spec fn spec_take_value_pair(
    s: Seq<Seq<char>>,
    k_short: Seq<char>,
    k_long: Seq<char>,
) -> PairTake {
    match spec_take_value(s, k_short) {
        OptTake::Found { value, rest } => PairTake::Value { value: Some(value), rest },
        OptTake::NoValue => PairTake::NoValue { key: k_short },
        OptTake::Absent => match spec_take_value(s, k_long) {
            OptTake::Found { value, rest } => PairTake::Value { value: Some(value), rest },
            OptTake::NoValue => PairTake::NoValue { key: k_long },
            OptTake::Absent => PairTake::Value { value: None, rest: s },
        },
    }
}

/// What a command line parses to.
pub ghost enum SpecParse {
    /// A help flag was present; everything else is ignored.
    Help,
    /// A complete configuration.
    Accepted {
        directory: Option<Seq<char>>,
        folder: Option<Seq<char>>,
        folder_is_directory: bool,
        name: Seq<char>,
    },
    /// An option key stood last, with no argument after it to be its value.
    NoValue { key: Seq<char> },
    /// No argument remained to be the project name.
    MissingName,
    /// Arguments remained after the project name: unrecognized options, or a
    /// second occurrence of one already taken.
    Unexpected { rest: Seq<Seq<char>> },
}

/// The grammar of the command line: help first, then the directory option,
/// the folder option, the folder-is-directory flag, and last the project
/// name, with nothing allowed to remain.
pub open spec fn spec_parse(s: Seq<Seq<char>>) -> SpecParse {
    if spec_take_flag2(s, "-h"@, "--help"@).0 {
        SpecParse::Help
    } else {
        match spec_take_value_pair(s, "-d"@, "--dir"@) {
            PairTake::NoValue { key } => SpecParse::NoValue { key },
            PairTake::Value { value: directory, rest: s1 } => {
                match spec_take_value_pair(s1, "-f"@, "--folder"@) {
                    PairTake::NoValue { key } => SpecParse::NoValue { key },
                    PairTake::Value { value: folder, rest: s2 } => {
                        let tf = spec_take_flag(s2, "-F"@);
                        if tf.1.len() == 0 {
                            SpecParse::MissingName
                        } else if tf.1.len() > 1 {
                            SpecParse::Unexpected { rest: tf.1.drop_first() }
                        } else {
                            SpecParse::Accepted {
                                directory,
                                folder,
                                folder_is_directory: tf.0,
                                name: tf.1[0],
                            }
                        }
                    },
                }
            },
        }
    }
}

/// Why parsing failed.
pub enum ArgError {
    /// The key stood last, with no value after it.
    OptionWithoutValue(String),
    /// No free argument remained for the project name.
    MissingProjectName,
    /// These arguments remained after parsing.
    UnexpectedArguments(Vec<String>),
}

/// A successful parse: either the help request, or a configuration to run.
pub enum Outcome {
    Help,
    Run(Config),
}

/// The meaning of a parser result, for comparison with [`spec_parse`].
pub open spec fn abs_result(r: Result<Outcome, ArgError>) -> SpecParse {
    match r {
        Ok(Outcome::Help) => SpecParse::Help,
        Ok(Outcome::Run(c)) => SpecParse::Accepted {
            directory: opt_view(c.directory),
            folder: opt_view(c.folder),
            folder_is_directory: c.folder_is_directory,
            name: c.project_name@,
        },
        Err(ArgError::OptionWithoutValue(k)) => SpecParse::NoValue { key: k@ },
        Err(ArgError::MissingProjectName) => SpecParse::MissingName,
        Err(ArgError::UnexpectedArguments(v)) => SpecParse::Unexpected { rest: views(v@) },
    }
}

proof fn lemma_views_remove(s: Seq<String>, i: int)
    requires
        0 <= i < s.len(),
    ensures
        views(s.remove(i)) =~= views(s).remove(i),
{
}

/// The least index of an argument equal to `key`, if any.
fn find_first(args: &Vec<String>, key: &String) -> (r: Option<usize>)
    ensures
        match r {
            Some(j) => first_index(views(args@), key@) == j as int,
            None => first_index(views(args@), key@) == -1,
        },
{
    let n = args.len();
    let mut j: usize = 0;
    while j < n
        invariant
            n == args.len(),
            j <= n,
            forall|t: int| 0 <= t < j ==> views(args@)[t] != key@,
        decreases n - j,
    {
        proof {
            assert(views(args@)[j as int] == args@[j as int]@);
        }
        if args[j].eq(key) {
            proof {
                lemma_first_index_found(views(args@), key@, j as int);
            }
            return Some(j);
        }
        j = j + 1;
    }
    proof {
        lemma_first_index_absent(views(args@), key@);
    }
    None
}

/// Takes a flag out of the arguments: removes its first occurrence and
/// reports whether one was there.
fn take_flag(args: &mut Vec<String>, key: &String) -> (r: bool)
    ensures
        r == spec_take_flag(views(old(args)@), key@).0,
        views(final(args)@) == spec_take_flag(views(old(args)@), key@).1,
{
    match find_first(args, key) {
        Some(i) => {
            proof {
                lemma_first_index(views(old(args)@), key@);
                assert(views(old(args)@).len() == old(args)@.len());
            }
            let _ = args.remove(i);
            proof {
                lemma_views_remove(old(args)@, i as int);
            }
            true
        },
        None => false,
    }
}

/// Takes a flag with two spellings, the short one looked for first.
fn take_flag2(args: &mut Vec<String>, k1: &String, k2: &String) -> (r: bool)
    ensures
        r == spec_take_flag2(views(old(args)@), k1@, k2@).0,
        views(final(args)@) == spec_take_flag2(views(old(args)@), k1@, k2@).1,
{
    if take_flag(args, k1) {
        true
    } else {
        take_flag(args, k2)
    }
}

/// Takes an option's value: the argument after the key's first occurrence.
/// Both are removed. The error carries the key that had no value after it.
fn take_value(args: &mut Vec<String>, key: &String) -> (r: Result<Option<String>, String>)
    ensures
        match spec_take_value(views(old(args)@), key@) {
            OptTake::Absent => r is Ok && r->Ok_0 is None && final(args)@ == old(args)@,
            OptTake::Found { value, rest } => r is Ok && r->Ok_0 is Some && (r->Ok_0->0)@ == value
                && views(final(args)@) == rest,
            OptTake::NoValue => r is Err && (r->Err_0)@ == key@ && final(args)@ == old(args)@,
        },
{
    match find_first(args, key) {
        None => Ok(None),
        Some(i) => {
            let n = args.len();
            proof {
                lemma_first_index(views(old(args)@), key@);
                assert(views(old(args)@).len() == old(args)@.len());
                assert((i as int) < n as int);
            }
            if i + 1 < n {
                let v = args.remove(i + 1);
                proof {
                    assert(args@.len() == old(args)@.len() - 1);
                }
                let _ = args.remove(i);
                proof {
                    lemma_views_remove(old(args)@, i as int + 1);
                    lemma_views_remove(old(args)@.remove(i as int + 1), i as int);
                    assert(views(old(args)@)[i as int + 1] == old(args)@[i as int + 1]@);
                }
                Ok(Some(v))
            } else {
                Err(key.clone())
            }
        },
    }
}

/// Takes an option with a short and a long spelling: the short one is looked
/// for over the whole command line first, as [`spec_take_value_pair`] says.
fn take_value_pair(args: &mut Vec<String>, k_short: &String, k_long: &String) -> (r: Result<
    Option<String>,
    String,
>)
    ensures
        match spec_take_value_pair(views(old(args)@), k_short@, k_long@) {
            PairTake::Value { value, rest } => r is Ok && opt_view(r->Ok_0) == value && views(
                final(args)@,
            ) == rest,
            PairTake::NoValue { key } => r is Err && (r->Err_0)@ == key && final(args)@ == old(
                args,
            )@,
        },
{
    match take_value(args, k_short) {
        Ok(Some(v)) => Ok(Some(v)),
        Ok(None) => take_value(args, k_long),
        Err(k) => Err(k),
    }
}

/// Parses a command line (the program's own name already removed) into a
/// help request or a configuration. The result is exactly what
/// [`spec_parse`] gives for the arguments' character sequences.
pub fn parse_args(args: Vec<String>) -> (r: Result<Outcome, ArgError>)
    ensures
        abs_result(r) == spec_parse(views(args@)),
{
    let mut rest = args;
    let k_h = String::from_str("-h");
    let k_help = String::from_str("--help");
    if take_flag2(&mut rest, &k_h, &k_help) {
        return Ok(Outcome::Help);
    }
    let k_d = String::from_str("-d");
    let k_dir = String::from_str("--dir");
    let directory = match take_value_pair(&mut rest, &k_d, &k_dir) {
        Ok(o) => o,
        Err(k) => {
            return Err(ArgError::OptionWithoutValue(k));
        },
    };
    let k_f = String::from_str("-f");
    let k_folder = String::from_str("--folder");
    let folder = match take_value_pair(&mut rest, &k_f, &k_folder) {
        Ok(o) => o,
        Err(k) => {
            return Err(ArgError::OptionWithoutValue(k));
        },
    };
    let k_big_f = String::from_str("-F");
    let folder_is_directory = take_flag(&mut rest, &k_big_f);
    if rest.len() == 0 {
        return Err(ArgError::MissingProjectName);
    }
    let ghost before_name = rest@;
    let project_name = rest.remove(0);
    proof {
        lemma_views_remove(before_name, 0);
        assert(views(before_name).remove(0) =~= views(before_name).drop_first());
        assert(views(before_name)[0] == before_name[0]@);
    }
    if rest.len() > 0 {
        return Err(ArgError::UnexpectedArguments(rest));
    }
    Ok(Outcome::Run(Config { directory, folder, folder_is_directory, project_name }))
}

impl ArgError {
    /// The message the tool reports for this error; for leftover arguments
    /// the caller appends the arguments themselves.
    pub fn message(&self) -> (r: String)
        ensures
            *self is OptionWithoutValue ==> r@ == "the '"@ + (self->OptionWithoutValue_0)@
                + "' option doesn't have an associated value"@,
            *self is MissingProjectName ==> r@ == "free-standing argument is missing"@,
            *self is UnexpectedArguments ==> r@ == "unknown/duplicate arguments"@,
    {
        match self {
            ArgError::OptionWithoutValue(k) => String::from_str("the '").concat(k.as_str()).concat(
                "' option doesn't have an associated value",
            ),
            ArgError::MissingProjectName => String::from_str("free-standing argument is missing"),
            ArgError::UnexpectedArguments(_) => String::from_str("unknown/duplicate arguments"),
        }
    }
}

/// The usage text the tool prints for the help option and after an error.
pub fn usage_text() -> (r: String)
    ensures
        r@ == "\nUsage: pyscaffold [options] name\n\nOptions:\n  -h, --help                Prints this help message\n  -d, --dir <DIRECTORY>     Create project in the specified directory,\n                                by default this is the working directory\n  -f, --folder <FOLDER>     Create project files in the specified folder,\n                                by default this is the project name\n  -F                        Use the directory as the project folder\n                                this should not be used with the -f flag\n\nArguments:\n  name                      Name of the project"@,
{
    String::from_str(
        "\nUsage: pyscaffold [options] name\n\nOptions:\n  -h, --help                Prints this help message\n  -d, --dir <DIRECTORY>     Create project in the specified directory,\n                                by default this is the working directory\n  -f, --folder <FOLDER>     Create project files in the specified folder,\n                                by default this is the project name\n  -F                        Use the directory as the project folder\n                                this should not be used with the -f flag\n\nArguments:\n  name                      Name of the project",
    )
}

} // verus!
