use vstd::prelude::*;

verus! {

/// A validated run configuration, produced by the argument parser and
/// consumed read-only by the materializer.
pub struct Config {
    /// Base path under which the project is created; the current working
    /// directory when absent.
    pub directory: Option<String>,
    /// Name of the subfolder to create; the project name when absent.
    pub folder: Option<String>,
    /// When set, the base directory itself is the target and no subfolder is
    /// created.
    pub folder_is_directory: bool,
    /// Required positional argument.
    pub project_name: String,
}

/// The mathematical content of a [`Config`]: every string as its character
/// sequence.
pub ghost struct ConfigV {
    pub directory: Option<Seq<char>>,
    pub folder: Option<Seq<char>>,
    pub folder_is_directory: bool,
    pub project_name: Seq<char>,
}

/// The view of an optional string: the character sequence it holds, if any.
pub open spec fn opt_view(o: Option<String>) -> Option<Seq<char>> {
    match o {
        Some(s) => Some(s@),
        None => None,
    }
}

impl View for Config {
    type V = ConfigV;

    open spec fn view(&self) -> ConfigV {
        ConfigV {
            directory: opt_view(self.directory),
            folder: opt_view(self.folder),
            folder_is_directory: self.folder_is_directory,
            project_name: self.project_name@,
        }
    }
}

} // verus!
