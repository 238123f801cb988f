use pyscaffold::config::Config;
use pyscaffold::materialize::{Entry, Event, FileOutcome, Phase, Run, RunError};
use pyscaffold::paths;

fn demo_config() -> Config {
    Config {
        directory: None,
        folder: None,
        folder_is_directory: false,
        project_name: "demo".to_string(),
    }
}

#[test]
fn path_joining() {
    assert_eq!(paths::join_path("/tmp/x", "proj"), "/tmp/x/proj");
    assert_eq!(paths::join_path("/tmp/x/", "proj"), "/tmp/x/proj");
    assert_eq!(paths::join_path("", "proj"), "proj");
    assert_eq!(paths::join_path("/anywhere", "/tmp/x"), "/tmp/x");
    assert_eq!(paths::join_path(".", "demo"), "./demo");
}

#[test]
fn file_names_and_contents() {
    assert_eq!(paths::py_file_name("demo"), "demo.py");
    assert_eq!(paths::bat_file_name("demo"), "demo.bat");
    assert_eq!(paths::py_content("demo"), "# demo.py\n");
    assert_eq!(paths::bat_content("demo"), "python demo.py\npause");
}

#[test]
fn default_target_is_a_subfolder_of_the_working_directory() {
    let c = demo_config();
    assert_eq!(paths::base_path(&c, "."), ".");
    assert_eq!(paths::target_path(&c, "."), "./demo");
}

#[test]
fn absolute_dir_and_folder_ignore_the_working_directory() {
    let c = Config {
        directory: Some("/tmp/x".to_string()),
        folder: Some("proj".to_string()),
        folder_is_directory: false,
        project_name: "demo".to_string(),
    };
    assert_eq!(paths::target_path(&c, "/anywhere"), "/tmp/x/proj");
    assert_eq!(paths::target_path(&c, "/somewhere/else"), "/tmp/x/proj");
}

#[test]
fn fresh_run_creates_folder_and_both_files() {
    let mut r = Run::new(demo_config(), ".".to_string());
    assert_eq!(r.phase, Phase::StatBase);
    assert_eq!(r.base_path(), ".");
    r.step(Event::Stat(Entry::Dir));
    assert_eq!(r.phase, Phase::StatTarget);
    assert_eq!(r.target_path(), "./demo");
    r.step(Event::Stat(Entry::Missing));
    assert_eq!(r.phase, Phase::MakeTarget);
    r.step(Event::DirMade(true));
    assert_eq!(r.phase, Phase::WritePy);
    assert_eq!(r.py_path(), "./demo/demo.py");
    assert_eq!(r.py_content(), "# demo.py\n");
    r.step(Event::FileMade(FileOutcome::Created));
    assert_eq!(r.phase, Phase::WriteBat);
    assert_eq!(r.bat_path(), "./demo/demo.bat");
    assert_eq!(r.bat_content(), "python demo.py\npause");
    r.step(Event::FileMade(FileOutcome::Created));
    assert_eq!(r.phase, Phase::Done);
}

#[test]
fn missing_base_is_created_first() {
    let c = Config {
        directory: Some("/tmp/x".to_string()),
        folder: Some("proj".to_string()),
        folder_is_directory: false,
        project_name: "demo".to_string(),
    };
    let mut r = Run::new(c, "/anywhere".to_string());
    assert_eq!(r.base_path(), "/tmp/x");
    r.step(Event::Stat(Entry::Missing));
    assert_eq!(r.phase, Phase::MakeBase);
    r.step(Event::DirMade(true));
    assert_eq!(r.phase, Phase::StatTarget);
    assert_eq!(r.target_path(), "/tmp/x/proj");
}

#[test]
fn second_run_fails_on_the_existing_folder() {
    let mut r = Run::new(demo_config(), ".".to_string());
    r.step(Event::Stat(Entry::Dir));
    r.step(Event::Stat(Entry::Dir));
    assert_eq!(r.phase, Phase::Failed(RunError::FolderExists));
    assert_eq!(RunError::FolderExists.message(), "Specified folder already exists");
}

#[test]
fn base_naming_a_file_fails_before_any_write() {
    let c = Config {
        directory: Some("/tmp/somefile".to_string()),
        folder: None,
        folder_is_directory: false,
        project_name: "demo".to_string(),
    };
    let mut r = Run::new(c, "/anywhere".to_string());
    r.step(Event::Stat(Entry::File));
    assert_eq!(r.phase, Phase::Failed(RunError::DirectoryIsFile));
    assert_eq!(RunError::DirectoryIsFile.message(), "Specified directory is a file");
}

#[test]
fn target_naming_a_file_fails() {
    let mut r = Run::new(demo_config(), ".".to_string());
    r.step(Event::Stat(Entry::Dir));
    r.step(Event::Stat(Entry::File));
    assert_eq!(r.phase, Phase::Failed(RunError::FolderIsFile));
    assert_eq!(RunError::FolderIsFile.message(), "Specified folder is a file");
}

#[test]
fn folder_is_directory_writes_into_the_base() {
    let c = Config {
        directory: Some("/tmp/existing".to_string()),
        folder: None,
        folder_is_directory: true,
        project_name: "demo".to_string(),
    };
    let mut r = Run::new(c, "/anywhere".to_string());
    r.step(Event::Stat(Entry::Dir));
    assert_eq!(r.phase, Phase::WritePy);
    assert_eq!(r.target_path(), "/tmp/existing");
    assert_eq!(r.py_path(), "/tmp/existing/demo.py");
    assert_eq!(r.bat_path(), "/tmp/existing/demo.bat");
}

#[test]
fn rerun_with_folder_is_directory_fails_on_the_existing_stub() {
    let c = Config {
        directory: Some("/tmp/existing".to_string()),
        folder: None,
        folder_is_directory: true,
        project_name: "demo".to_string(),
    };
    let mut r = Run::new(c, "/anywhere".to_string());
    r.step(Event::Stat(Entry::Dir));
    r.step(Event::FileMade(FileOutcome::Exists));
    assert_eq!(r.phase, Phase::Failed(RunError::FileExists));
}

#[test]
fn a_filesystem_error_fails_the_run() {
    let mut r = Run::new(demo_config(), ".".to_string());
    r.step(Event::Stat(Entry::Dir));
    r.step(Event::Stat(Entry::Missing));
    r.step(Event::DirMade(false));
    assert_eq!(r.phase, Phase::Failed(RunError::Io));
}
