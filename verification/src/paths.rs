use vstd::prelude::*;
use vstd::string::*;

use crate::config::{Config, ConfigV};

verus! {

// Paths are modelled as plain character sequences with `/` as the separator.
// Joining follows the semantics of appending one path to another on a
// Unix-like system: an absolute right-hand side replaces the left-hand side,
// and a separator is inserted only when one is needed.

/// Whether a path is absolute: it starts with the separator.
pub open spec fn spec_is_absolute(p: Seq<char>) -> bool {
    p.len() > 0 && p[0] == '/'
}

/// The path obtained by appending `rel` to `base`. An absolute `rel` stands
/// alone; otherwise a separator is inserted unless `base` is empty or already
/// ends with one.
pub open spec fn spec_join(base: Seq<char>, rel: Seq<char>) -> Seq<char> {
    if spec_is_absolute(rel) {
        rel
    } else if base.len() == 0 || base[base.len() - 1] == '/' {
        base + rel
    } else {
        base + seq!['/'] + rel
    }
}

/// The subfolder appended under the base directory: the explicit folder name
/// when one was given, the project name otherwise.
pub open spec fn spec_folder_or_name(c: ConfigV) -> Seq<char> {
    match c.folder {
        Some(f) => f,
        None => c.project_name,
    }
}

/// The base directory: the configured directory resolved against the working
/// directory, or the working directory itself when none was configured.
pub open spec fn spec_base_path(c: ConfigV, cwd: Seq<char>) -> Seq<char> {
    match c.directory {
        Some(d) => spec_join(cwd, d),
        None => cwd,
    }
}

/// The directory that receives the generated files: the base directory itself
/// when `folder_is_directory` is set, a subfolder of it otherwise.
pub open spec fn spec_target_path(c: ConfigV, cwd: Seq<char>) -> Seq<char> {
    if c.folder_is_directory {
        spec_base_path(c, cwd)
    } else {
        spec_join(spec_base_path(c, cwd), spec_folder_or_name(c))
    }
}

pub open spec fn spec_py_file_name(name: Seq<char>) -> Seq<char> {
    name + seq!['.', 'p', 'y']
}

pub open spec fn spec_bat_file_name(name: Seq<char>) -> Seq<char> {
    name + seq!['.', 'b', 'a', 't']
}

pub open spec fn spec_py_path(c: ConfigV, cwd: Seq<char>) -> Seq<char> {
    spec_join(spec_target_path(c, cwd), spec_py_file_name(c.project_name))
}

pub open spec fn spec_bat_path(c: ConfigV, cwd: Seq<char>) -> Seq<char> {
    spec_join(spec_target_path(c, cwd), spec_bat_file_name(c.project_name))
}

/// The single line written into the source stub.
pub open spec fn spec_py_content(name: Seq<char>) -> Seq<char> {
    seq!['#', ' '] + name + seq!['.', 'p', 'y', '\n']
}

/// The two lines written into the launcher script.
pub open spec fn spec_bat_content(name: Seq<char>) -> Seq<char> {
    seq!['p', 'y', 't', 'h', 'o', 'n', ' '] + name + seq!['.', 'p', 'y', '\n', 'p', 'a', 'u', 's', 'e']
}

/// Appends `rel` to `base` as a filesystem path.
pub fn join_path(base: &str, rel: &str) -> (r: String)
    ensures
        r@ == spec_join(base@, rel@),
{
    let rl = rel.unicode_len();
    if rl > 0 && rel.get_char(0) == '/' {
        String::from_str(rel)
    } else {
        let bl = base.unicode_len();
        if bl == 0 || base.get_char(bl - 1) == '/' {
            String::from_str(base).concat(rel)
        } else {
            let r = String::from_str(base).concat("/").concat(rel);
            proof {
                reveal_strlit("/");
                assert("/"@ =~= seq!['/']);
                assert(r@ =~= base@ + seq!['/'] + rel@);
            }
            r
        }
    }
}

/// The base directory for a configuration, resolved against `cwd`.
pub fn base_path(cfg: &Config, cwd: &str) -> (r: String)
    ensures
        r@ == spec_base_path(cfg@, cwd@),
{
    match &cfg.directory {
        Some(d) => join_path(cwd, d.as_str()),
        None => String::from_str(cwd),
    }
}

/// The directory that receives the generated files.
pub fn target_path(cfg: &Config, cwd: &str) -> (r: String)
    ensures
        r@ == spec_target_path(cfg@, cwd@),
{
    let base = base_path(cfg, cwd);
    if cfg.folder_is_directory {
        base
    } else {
        match &cfg.folder {
            Some(f) => join_path(base.as_str(), f.as_str()),
            None => join_path(base.as_str(), cfg.project_name.as_str()),
        }
    }
}

/// `<name>.py`, the file name of the source stub.
pub fn py_file_name(name: &str) -> (r: String)
    ensures
        r@ == spec_py_file_name(name@),
{
    let r = String::from_str(name).concat(".py");
    proof {
        reveal_strlit(".py");
        assert(r@ =~= spec_py_file_name(name@));
    }
    r
}

/// `<name>.bat`, the file name of the launcher script.
pub fn bat_file_name(name: &str) -> (r: String)
    ensures
        r@ == spec_bat_file_name(name@),
{
    let r = String::from_str(name).concat(".bat");
    proof {
        reveal_strlit(".bat");
        assert(r@ =~= spec_bat_file_name(name@));
    }
    r
}

/// The content of the source stub: `# <name>.py` and a closing newline.
pub fn py_content(name: &str) -> (r: String)
    ensures
        r@ == spec_py_content(name@),
{
    let r = String::from_str("# ").concat(name).concat(".py\n");
    proof {
        reveal_strlit("# ");
        reveal_strlit(".py\n");
        assert(r@ =~= spec_py_content(name@));
    }
    r
}

/// The content of the launcher script: `python <name>.py` then `pause`.
pub fn bat_content(name: &str) -> (r: String)
    ensures
        r@ == spec_bat_content(name@),
{
    let r = String::from_str("python ").concat(name).concat(".py\npause");
    proof {
        reveal_strlit("python ");
        reveal_strlit(".py\npause");
        assert(r@ =~= spec_bat_content(name@));
    }
    r
}

/// With an absolute directory and an explicit folder name, the target is
/// fixed by the two of them: the working directory plays no part.
pub proof fn lemma_absolute_dir_fixes_target(c: ConfigV, cwd: Seq<char>)
    requires
        c.directory == Some("/tmp/x"@),
        c.folder == Some("proj"@),
        !c.folder_is_directory,
    ensures
        spec_base_path(c, cwd) == "/tmp/x"@,
        spec_target_path(c, cwd) == "/tmp/x/proj"@,
{
    reveal_strlit("/tmp/x");
    reveal_strlit("proj");
    reveal_strlit("/tmp/x/proj");
    assert(spec_is_absolute("/tmp/x"@));
    assert(!spec_is_absolute("proj"@));
    assert("/tmp/x"@["/tmp/x"@.len() - 1] == 'x');
    assert(spec_target_path(c, cwd) =~= "/tmp/x/proj"@);
}

} // verus!
