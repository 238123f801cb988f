use vstd::prelude::*;
use vstd::string::*;

use crate::config::{Config, ConfigV};
use crate::paths;

verus! {

// The materializer turns a configuration into filesystem effects: it makes
// sure the base directory exists, creates the target folder unless the base
// itself is the target, and writes the two project files. The filesystem
// calls themselves cannot stand here; instead [`Run`] is a state machine
// whose driver performs one call per phase and feeds the result back as an
// [`Event`]. Every decision between two calls is made, and verified, in
// [`Run::step`].

/// What a path lookup finds on disk.
#[derive(Clone, Copy, PartialEq, Eq, Structural, Debug)]
pub enum Entry {
    Missing,
    File,
    Dir,
}

/// The result of an exclusive file creation.
#[derive(Clone, Copy, PartialEq, Eq, Structural, Debug)]
pub enum FileOutcome {
    /// The file was created and its content written.
    Created,
    /// An entry already existed at the path; nothing was written.
    Exists,
    /// The filesystem reported some other error.
    OtherError,
}

/// The result of the filesystem call a phase asked for.
#[derive(Clone, Copy, PartialEq, Eq, Structural, Debug)]
pub enum Event {
    /// What a stat of the phase's path found.
    Stat(Entry),
    /// Whether creating the phase's directory (with its ancestors) succeeded.
    DirMade(bool),
    /// How creating the phase's file ended.
    FileMade(FileOutcome),
}

/// Why a run failed.
#[derive(Clone, Copy, PartialEq, Eq, Structural, Debug)]
pub enum RunError {
    /// The base directory path names a plain file.
    DirectoryIsFile,
    /// The target folder path names a plain file.
    FolderIsFile,
    /// The target folder already exists as a directory.
    FolderExists,
    /// A project file already exists in the target directory.
    FileExists,
    /// The filesystem reported an error of its own.
    Io,
}

/// The phases of a run. Each phase before `Done` names the one filesystem
/// call the driver must perform next.
#[derive(Clone, Copy, PartialEq, Eq, Structural, Debug)]
pub enum Phase {
    /// Stat the base directory path.
    StatBase,
    /// Create the base directory and any missing ancestors.
    MakeBase,
    /// Stat the target folder path.
    StatTarget,
    /// Create the target folder.
    MakeTarget,
    /// Exclusively create the source stub and write its content.
    WritePy,
    /// Exclusively create the launcher script and write its content.
    WriteBat,
    /// Every file is in place.
    Done,
    /// The run ended in an error; no further call is made.
    Failed(RunError),
}

/// Whether an event answers the call that `p` asks for.
pub open spec fn event_fits(p: Phase, ev: Event) -> bool {
    match p {
        Phase::StatBase => ev is Stat,
        Phase::StatTarget => ev is Stat,
        Phase::MakeBase => ev is DirMade,
        Phase::MakeTarget => ev is DirMade,
        Phase::WritePy => ev is FileMade,
        Phase::WriteBat => ev is FileMade,
        Phase::Done => false,
        Phase::Failed(_) => false,
    }
}

/// The phase that follows `p` once its call ended as `ev` says, for a
/// configuration whose `folder_is_directory` flag is `fdir`.
pub open spec fn spec_step(p: Phase, fdir: bool, ev: Event) -> Phase {
    match p {
        Phase::StatBase => match ev {
            Event::Stat(Entry::File) => Phase::Failed(RunError::DirectoryIsFile),
            Event::Stat(Entry::Missing) => Phase::MakeBase,
            Event::Stat(Entry::Dir) => if fdir {
                Phase::WritePy
            } else {
                Phase::StatTarget
            },
            _ => p,
        },
        Phase::MakeBase => match ev {
            Event::DirMade(ok) => if !ok {
                Phase::Failed(RunError::Io)
            } else if fdir {
                Phase::WritePy
            } else {
                Phase::StatTarget
            },
            _ => p,
        },
        Phase::StatTarget => match ev {
            Event::Stat(Entry::Missing) => Phase::MakeTarget,
            Event::Stat(Entry::File) => Phase::Failed(RunError::FolderIsFile),
            Event::Stat(Entry::Dir) => Phase::Failed(RunError::FolderExists),
            _ => p,
        },
        Phase::MakeTarget => match ev {
            Event::DirMade(ok) => if ok {
                Phase::WritePy
            } else {
                Phase::Failed(RunError::Io)
            },
            _ => p,
        },
        Phase::WritePy => match ev {
            Event::FileMade(FileOutcome::Created) => Phase::WriteBat,
            Event::FileMade(FileOutcome::Exists) => Phase::Failed(RunError::FileExists),
            Event::FileMade(FileOutcome::OtherError) => Phase::Failed(RunError::Io),
            _ => p,
        },
        Phase::WriteBat => match ev {
            Event::FileMade(FileOutcome::Created) => Phase::Done,
            Event::FileMade(FileOutcome::Exists) => Phase::Failed(RunError::FileExists),
            Event::FileMade(FileOutcome::OtherError) => Phase::Failed(RunError::Io),
            _ => p,
        },
        Phase::Done => p,
        Phase::Failed(_) => p,
    }
}

/// One run of the materializer over a fixed configuration and working
/// directory. The driver loops: look at `phase`, perform the call it names
/// on the path that the corresponding method gives, and hand the result to
/// [`Run::step`].
pub struct Run {
    pub cfg: Config,
    pub cwd: String,
    pub phase: Phase,
}

impl Run {
    /// Starts a run; nothing has been observed or created yet.
    pub fn new(cfg: Config, cwd: String) -> (r: Run)
        ensures
            r.cfg == cfg,
            r.cwd == cwd,
            r.phase == Phase::StatBase,
    {
        Run { cfg, cwd, phase: Phase::StatBase }
    }

    /// Advances the run by the result of the call that the current phase
    /// asked for. The configuration and working directory never change.
    pub fn step(&mut self, ev: Event)
        requires
            event_fits(old(self).phase, ev),
        ensures
            final(self).cfg == old(self).cfg,
            final(self).cwd == old(self).cwd,
            final(self).phase == spec_step(old(self).phase, old(self).cfg.folder_is_directory, ev),
    {
        let next = match self.phase {
            Phase::StatBase => match ev {
                Event::Stat(Entry::File) => Phase::Failed(RunError::DirectoryIsFile),
                Event::Stat(Entry::Missing) => Phase::MakeBase,
                Event::Stat(Entry::Dir) => if self.cfg.folder_is_directory {
                    Phase::WritePy
                } else {
                    Phase::StatTarget
                },
                _ => self.phase,
            },
            Phase::MakeBase => match ev {
                Event::DirMade(ok) => if !ok {
                    Phase::Failed(RunError::Io)
                } else if self.cfg.folder_is_directory {
                    Phase::WritePy
                } else {
                    Phase::StatTarget
                },
                _ => self.phase,
            },
            Phase::StatTarget => match ev {
                Event::Stat(Entry::Missing) => Phase::MakeTarget,
                Event::Stat(Entry::File) => Phase::Failed(RunError::FolderIsFile),
                Event::Stat(Entry::Dir) => Phase::Failed(RunError::FolderExists),
                _ => self.phase,
            },
            Phase::MakeTarget => match ev {
                Event::DirMade(ok) => if ok {
                    Phase::WritePy
                } else {
                    Phase::Failed(RunError::Io)
                },
                _ => self.phase,
            },
            Phase::WritePy => match ev {
                Event::FileMade(FileOutcome::Created) => Phase::WriteBat,
                Event::FileMade(FileOutcome::Exists) => Phase::Failed(RunError::FileExists),
                Event::FileMade(FileOutcome::OtherError) => Phase::Failed(RunError::Io),
                _ => self.phase,
            },
            Phase::WriteBat => match ev {
                Event::FileMade(FileOutcome::Created) => Phase::Done,
                Event::FileMade(FileOutcome::Exists) => Phase::Failed(RunError::FileExists),
                Event::FileMade(FileOutcome::OtherError) => Phase::Failed(RunError::Io),
                _ => self.phase,
            },
            Phase::Done => self.phase,
            Phase::Failed(_) => self.phase,
        };
        self.phase = next;
    }

    /// The base directory path: what `StatBase` stats and `MakeBase` creates.
    pub fn base_path(&self) -> (r: String)
        ensures
            r@ == paths::spec_base_path(self.cfg@, self.cwd@),
    {
        paths::base_path(&self.cfg, self.cwd.as_str())
    }

    /// The target folder path: what `StatTarget` stats and `MakeTarget`
    /// creates, and the directory that receives both files.
    pub fn target_path(&self) -> (r: String)
        ensures
            r@ == paths::spec_target_path(self.cfg@, self.cwd@),
    {
        paths::target_path(&self.cfg, self.cwd.as_str())
    }

    /// The path of the source stub: what `WritePy` creates.
    pub fn py_path(&self) -> (r: String)
        ensures
            r@ == paths::spec_py_path(self.cfg@, self.cwd@),
    {
        let target = self.target_path();
        let name = paths::py_file_name(self.cfg.project_name.as_str());
        paths::join_path(target.as_str(), name.as_str())
    }

    /// The path of the launcher script: what `WriteBat` creates.
    pub fn bat_path(&self) -> (r: String)
        ensures
            r@ == paths::spec_bat_path(self.cfg@, self.cwd@),
    {
        let target = self.target_path();
        let name = paths::bat_file_name(self.cfg.project_name.as_str());
        paths::join_path(target.as_str(), name.as_str())
    }

    /// The content that `WritePy` writes.
    pub fn py_content(&self) -> (r: String)
        ensures
            r@ == paths::spec_py_content(self.cfg@.project_name),
    {
        paths::py_content(self.cfg.project_name.as_str())
    }

    /// The content that `WriteBat` writes.
    pub fn bat_content(&self) -> (r: String)
        ensures
            r@ == paths::spec_bat_content(self.cfg@.project_name),
    {
        paths::bat_content(self.cfg.project_name.as_str())
    }
}

/// The message the tool reports for an error the run logic itself raised.
/// `FileExists` and `Io` carry the filesystem's own report instead.
impl RunError {
    pub fn message(&self) -> (r: String)
        requires
            !(*self is FileExists),
            !(*self is Io),
        ensures
            *self is DirectoryIsFile ==> r@ == "Specified directory is a file"@,
            *self is FolderIsFile ==> r@ == "Specified folder is a file"@,
            *self is FolderExists ==> r@ == "Specified folder already exists"@,
    {
        match self {
            RunError::DirectoryIsFile => String::from_str("Specified directory is a file"),
            RunError::FolderIsFile => String::from_str("Specified folder is a file"),
            RunError::FolderExists => String::from_str("Specified folder already exists"),
            _ => String::new(),
        }
    }
}

// ---------------------------------------------------------------------------
// A model of the filesystem, and of a whole run against it.
//
// A filesystem is a map from paths to entries; a path that is not a key is
// missing. `model_run` drives the phases of a run with exactly the events
// such a filesystem would produce when every directory and file creation the
// model asks for succeeds, and threads the effects of those creations
// through. The laws about whole runs are stated and proved over it.

/// What the modelled filesystem holds at `p`.
pub open spec fn fs_entry(fs: Map<Seq<char>, Entry>, p: Seq<char>) -> Entry {
    if fs.contains_key(p) {
        fs[p]
    } else {
        Entry::Missing
    }
}

/// The event that the modelled filesystem answers to the call that `p` asks
/// for: stats report what the map holds, directory creations succeed, and
/// file creations succeed exactly on missing paths.
pub open spec fn model_event(p: Phase, c: ConfigV, cwd: Seq<char>, fs: Map<Seq<char>, Entry>) -> Event {
    match p {
        Phase::StatBase => Event::Stat(fs_entry(fs, paths::spec_base_path(c, cwd))),
        Phase::StatTarget => Event::Stat(fs_entry(fs, paths::spec_target_path(c, cwd))),
        Phase::MakeBase => Event::DirMade(true),
        Phase::MakeTarget => Event::DirMade(true),
        Phase::WritePy => Event::FileMade(
            if fs_entry(fs, paths::spec_py_path(c, cwd)) is Missing {
                FileOutcome::Created
            } else {
                FileOutcome::Exists
            },
        ),
        Phase::WriteBat => Event::FileMade(
            if fs_entry(fs, paths::spec_bat_path(c, cwd)) is Missing {
                FileOutcome::Created
            } else {
                FileOutcome::Exists
            },
        ),
        Phase::Done => Event::DirMade(true),
        Phase::Failed(_) => Event::DirMade(true),
    }
}

/// The filesystem after the call that `p` asks for, answered as
/// [`model_event`] says.
pub open spec fn model_fs_next(p: Phase, c: ConfigV, cwd: Seq<char>, fs: Map<Seq<char>, Entry>) -> Map<
    Seq<char>,
    Entry,
> {
    match p {
        Phase::MakeBase => fs.insert(paths::spec_base_path(c, cwd), Entry::Dir),
        Phase::MakeTarget => fs.insert(paths::spec_target_path(c, cwd), Entry::Dir),
        Phase::WritePy => if fs_entry(fs, paths::spec_py_path(c, cwd)) is Missing {
            fs.insert(paths::spec_py_path(c, cwd), Entry::File)
        } else {
            fs
        },
        Phase::WriteBat => if fs_entry(fs, paths::spec_bat_path(c, cwd)) is Missing {
            fs.insert(paths::spec_bat_path(c, cwd), Entry::File)
        } else {
            fs
        },
        _ => fs,
    }
}

/// How many phases can still follow `p`; every step strictly lowers it.
pub open spec fn phase_rank(p: Phase) -> nat {
    match p {
        Phase::StatBase => 6,
        Phase::MakeBase => 5,
        Phase::StatTarget => 4,
        Phase::MakeTarget => 3,
        Phase::WritePy => 2,
        Phase::WriteBat => 1,
        Phase::Done => 0,
        Phase::Failed(_) => 0,
    }
}

/// Runs the phases from `p` to completion against the modelled filesystem,
/// returning the final phase — `Done` or `Failed` — and the filesystem with
/// every creation the run performed.
pub open spec fn model_run(p: Phase, c: ConfigV, cwd: Seq<char>, fs: Map<Seq<char>, Entry>) -> (
    Phase,
    Map<Seq<char>, Entry>,
)
    decreases phase_rank(p),
{
    match p {
        Phase::Done => (p, fs),
        Phase::Failed(_) => (p, fs),
        _ => {
            let p2 = spec_step(p, c.folder_is_directory, model_event(p, c, cwd, fs));
            let fs2 = model_fs_next(p, c, cwd, fs);
            if phase_rank(p2) < phase_rank(p) {
                model_run(p2, c, cwd, fs2)
            } else {
                (p, fs)
            }
        },
    }
}

/// A whole run from its first phase.
pub open spec fn model_outcome(c: ConfigV, cwd: Seq<char>, fs: Map<Seq<char>, Entry>) -> (
    Phase,
    Map<Seq<char>, Entry>,
) {
    model_run(Phase::StatBase, c, cwd, fs)
}

/// The modelled filesystem answers every phase with an event that phase
/// accepts, so a driver that follows the model only ever calls [`Run::step`]
/// within its precondition.
pub proof fn lemma_model_event_fits(p: Phase, c: ConfigV, cwd: Seq<char>, fs: Map<Seq<char>, Entry>)
    requires
        !(p is Done),
        !(p is Failed),
    ensures
        event_fits(p, model_event(p, c, cwd, fs)),
{
}

/// The two file paths of a run never coincide: the launcher script's path is
/// one character longer than the source stub's.
pub proof fn lemma_py_bat_paths_differ(c: ConfigV, cwd: Seq<char>)
    ensures
        paths::spec_py_path(c, cwd) != paths::spec_bat_path(c, cwd),
{
    let name = c.project_name;
    let pyn = paths::spec_py_file_name(name);
    let batn = paths::spec_bat_file_name(name);
    assert(pyn.len() == name.len() + 3);
    assert(batn.len() == name.len() + 4);
    if name.len() > 0 {
        assert(pyn[0] == name[0]);
        assert(batn[0] == name[0]);
    } else {
        assert(pyn[0] == '.');
        assert(batn[0] == '.');
    }
    assert(paths::spec_is_absolute(pyn) == paths::spec_is_absolute(batn));
    assert(paths::spec_bat_path(c, cwd).len() == paths::spec_py_path(c, cwd).len() + 1);
}

/// A base directory path that names a plain file fails the run with a
/// "not a directory" error, and the filesystem is left untouched: no
/// directory is made and no file is written.
pub proof fn lemma_file_at_base_fails_before_any_write(
    c: ConfigV,
    cwd: Seq<char>,
    fs: Map<Seq<char>, Entry>,
)
    requires
        fs_entry(fs, paths::spec_base_path(c, cwd)) == Entry::File,
    ensures
        model_outcome(c, cwd, fs) == (Phase::Failed(RunError::DirectoryIsFile), fs),
{
    reveal_with_fuel(model_run, 3);
}

/// With `folder_is_directory` set and the base directory already present,
/// no subfolder is created: the target is the base directory itself, and a
/// run adds exactly the two project files to it.
pub proof fn lemma_folder_is_directory_uses_base(
    c: ConfigV,
    cwd: Seq<char>,
    fs: Map<Seq<char>, Entry>,
)
    requires
        c.folder_is_directory,
        fs_entry(fs, paths::spec_base_path(c, cwd)) == Entry::Dir,
        fs_entry(fs, paths::spec_py_path(c, cwd)) == Entry::Missing,
        fs_entry(fs, paths::spec_bat_path(c, cwd)) == Entry::Missing,
    ensures
        paths::spec_target_path(c, cwd) == paths::spec_base_path(c, cwd),
        model_outcome(c, cwd, fs) == (
            Phase::Done,
            fs.insert(paths::spec_py_path(c, cwd), Entry::File).insert(
                paths::spec_bat_path(c, cwd),
                Entry::File,
            ),
        ),
{
    reveal_with_fuel(model_run, 5);
    lemma_py_bat_paths_differ(c, cwd);
}

/// On a filesystem where nothing stands in the way — the base path is not a
/// plain file, the target folder does not exist yet, and neither file path is
/// taken — a run succeeds.
#[verifier::rlimit(100)]
pub proof fn lemma_fresh_run_succeeds(c: ConfigV, cwd: Seq<char>, fs: Map<Seq<char>, Entry>)
    requires
        fs_entry(fs, paths::spec_base_path(c, cwd)) != Entry::File,
        !c.folder_is_directory ==> fs_entry(fs, paths::spec_target_path(c, cwd))
            == Entry::Missing && paths::spec_target_path(c, cwd) != paths::spec_base_path(c, cwd),
        fs_entry(fs, paths::spec_py_path(c, cwd)) == Entry::Missing,
        paths::spec_py_path(c, cwd) != paths::spec_base_path(c, cwd),
        paths::spec_py_path(c, cwd) != paths::spec_target_path(c, cwd),
        fs_entry(fs, paths::spec_bat_path(c, cwd)) == Entry::Missing,
        paths::spec_bat_path(c, cwd) != paths::spec_base_path(c, cwd),
        paths::spec_bat_path(c, cwd) != paths::spec_target_path(c, cwd),
    ensures
        model_outcome(c, cwd, fs).0 == Phase::Done,
{
    reveal_with_fuel(model_run, 8);
    lemma_py_bat_paths_differ(c, cwd);
    let base = paths::spec_base_path(c, cwd);
    if fs_entry(fs, base) is Missing {
        assert(fs_entry(fs.insert(base, Entry::Dir), base) == Entry::Dir);
    }
}

/// For a plain configuration — the subfolder name is not empty and neither
/// it nor the project name is an absolute path — the base, the target and
/// the two file paths never collide: each join below the base strictly
/// lengthens the path.
pub proof fn lemma_plain_names_make_paths_distinct(c: ConfigV, cwd: Seq<char>)
    requires
        paths::spec_folder_or_name(c).len() > 0,
        !paths::spec_is_absolute(paths::spec_folder_or_name(c)),
        c.project_name.len() > 0 ==> c.project_name[0] != '/',
    ensures
        !c.folder_is_directory ==> paths::spec_target_path(c, cwd) != paths::spec_base_path(c, cwd),
        paths::spec_py_path(c, cwd) != paths::spec_base_path(c, cwd),
        paths::spec_py_path(c, cwd) != paths::spec_target_path(c, cwd),
        paths::spec_bat_path(c, cwd) != paths::spec_base_path(c, cwd),
        paths::spec_bat_path(c, cwd) != paths::spec_target_path(c, cwd),
{
    let base = paths::spec_base_path(c, cwd);
    let target = paths::spec_target_path(c, cwd);
    let pyn = paths::spec_py_file_name(c.project_name);
    let batn = paths::spec_bat_file_name(c.project_name);
    if c.project_name.len() > 0 {
        assert(pyn[0] == c.project_name[0]);
        assert(batn[0] == c.project_name[0]);
    } else {
        assert(pyn[0] == '.');
        assert(batn[0] == '.');
    }
    assert(!paths::spec_is_absolute(pyn));
    assert(!paths::spec_is_absolute(batn));
    if !c.folder_is_directory {
        assert(target.len() >= base.len() + paths::spec_folder_or_name(c).len());
    }
    assert(paths::spec_py_path(c, cwd).len() >= target.len() + pyn.len());
    assert(paths::spec_bat_path(c, cwd).len() >= target.len() + batn.len());
}

/// For a plain configuration, a run over a filesystem where nothing stands
/// in the way succeeds outright.
pub proof fn lemma_plain_fresh_run_succeeds(c: ConfigV, cwd: Seq<char>, fs: Map<Seq<char>, Entry>)
    requires
        paths::spec_folder_or_name(c).len() > 0,
        !paths::spec_is_absolute(paths::spec_folder_or_name(c)),
        c.project_name.len() > 0 ==> c.project_name[0] != '/',
        fs_entry(fs, paths::spec_base_path(c, cwd)) != Entry::File,
        !c.folder_is_directory ==> fs_entry(fs, paths::spec_target_path(c, cwd))
            == Entry::Missing,
        fs_entry(fs, paths::spec_py_path(c, cwd)) == Entry::Missing,
        fs_entry(fs, paths::spec_bat_path(c, cwd)) == Entry::Missing,
    ensures
        model_outcome(c, cwd, fs).0 == Phase::Done,
{
    lemma_plain_names_make_paths_distinct(c, cwd);
    lemma_fresh_run_succeeds(c, cwd, fs);
}

/// Running a second time over the filesystem a successful run left behind
/// fails with an "already exists" error: at the target folder when a
/// subfolder is created, at the source stub when the base directory itself is
/// the target.
#[verifier::rlimit(100)]
pub proof fn lemma_second_run_already_exists(c: ConfigV, cwd: Seq<char>, fs: Map<Seq<char>, Entry>)
    requires
        model_outcome(c, cwd, fs).0 == Phase::Done,
    ensures
        !c.folder_is_directory ==> model_outcome(c, cwd, model_outcome(c, cwd, fs).1).0
            == Phase::Failed(RunError::FolderExists),
        c.folder_is_directory ==> model_outcome(c, cwd, model_outcome(c, cwd, fs).1).0
            == Phase::Failed(RunError::FileExists),
{
    reveal_with_fuel(model_run, 8);
    lemma_py_bat_paths_differ(c, cwd);
    let base = paths::spec_base_path(c, cwd);
    let target = paths::spec_target_path(c, cwd);
    let py = paths::spec_py_path(c, cwd);
    let bat = paths::spec_bat_path(c, cwd);
    let e_b = fs_entry(fs, base);
    assert(!(e_b is File));
    let fs_a = if e_b is Missing {
        fs.insert(base, Entry::Dir)
    } else {
        fs
    };
    assert(fs_entry(fs_a, base) == Entry::Dir);
    if c.folder_is_directory {
        assert(fs_entry(fs_a, py) == Entry::Missing);
        let fs_c = fs_a.insert(py, Entry::File);
        assert(fs_entry(fs_c, bat) == Entry::Missing);
        let fs_d = fs_c.insert(bat, Entry::File);
        assert(model_outcome(c, cwd, fs).1 == fs_d);
        assert(py != base);
        assert(bat != base);
        assert(fs_entry(fs_d, base) == Entry::Dir);
        assert(fs_entry(fs_d, py) == Entry::File);
    } else {
        assert(fs_entry(fs_a, target) == Entry::Missing);
        assert(target != base);
        let fs_b = fs_a.insert(target, Entry::Dir);
        assert(fs_entry(fs_b, py) == Entry::Missing);
        let fs_c = fs_b.insert(py, Entry::File);
        assert(fs_entry(fs_c, bat) == Entry::Missing);
        let fs_d = fs_c.insert(bat, Entry::File);
        assert(model_outcome(c, cwd, fs).1 == fs_d);
        assert(py != base && py != target);
        assert(bat != base && bat != target);
        assert(fs_entry(fs_d, base) == Entry::Dir);
        assert(fs_entry(fs_d, target) == Entry::Dir);
    }
}

} // verus!
