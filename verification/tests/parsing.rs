use pyscaffold::args::{parse_args, ArgError, Outcome};
use pyscaffold::config::Config;

fn strings(args: &[&str]) -> Vec<String> {
    args.iter().map(|a| a.to_string()).collect()
}

fn accepted(args: &[&str]) -> Config {
    match parse_args(strings(args)) {
        Ok(Outcome::Run(c)) => c,
        _ => panic!("expected a configuration"),
    }
}

#[test]
fn name_alone_gives_defaults() {
    let c = accepted(&["demo"]);
    assert_eq!(c.directory, None);
    assert_eq!(c.folder, None);
    assert!(!c.folder_is_directory);
    assert_eq!(c.project_name, "demo");
}

#[test]
fn short_options_take_the_next_argument() {
    let c = accepted(&["-d", "/tmp/x", "-f", "proj", "demo"]);
    assert_eq!(c.directory, Some("/tmp/x".to_string()));
    assert_eq!(c.folder, Some("proj".to_string()));
    assert!(!c.folder_is_directory);
    assert_eq!(c.project_name, "demo");
}

#[test]
fn long_options_are_recognized() {
    let c = accepted(&["--dir", "/base", "--folder", "sub", "name"]);
    assert_eq!(c.directory, Some("/base".to_string()));
    assert_eq!(c.folder, Some("sub".to_string()));
    assert_eq!(c.project_name, "name");
}

#[test]
fn options_may_follow_the_name() {
    let c = accepted(&["demo", "-d", "/tmp/x"]);
    assert_eq!(c.directory, Some("/tmp/x".to_string()));
    assert_eq!(c.project_name, "demo");
}

#[test]
fn folder_is_directory_flag() {
    let c = accepted(&["-F", "demo"]);
    assert!(c.folder_is_directory);
    assert_eq!(c.folder, None);
    assert_eq!(c.project_name, "demo");
}

#[test]
fn help_short_circuits_everything_else() {
    assert!(matches!(parse_args(strings(&["-h"])), Ok(Outcome::Help)));
    assert!(matches!(parse_args(strings(&["--help", "demo", "extra"])), Ok(Outcome::Help)));
    assert!(matches!(parse_args(strings(&["-d", "-h"])), Ok(Outcome::Help)));
}

#[test]
fn an_option_value_may_look_like_a_flag() {
    let c = accepted(&["-d", "-F", "demo"]);
    assert_eq!(c.directory, Some("-F".to_string()));
    assert!(!c.folder_is_directory);
    assert_eq!(c.project_name, "demo");
}

#[test]
fn option_key_last_has_no_value() {
    match parse_args(strings(&["demo", "-d"])) {
        Err(ArgError::OptionWithoutValue(k)) => {
            assert_eq!(k, "-d");
        }
        _ => panic!("expected a missing-value error"),
    }
    match parse_args(strings(&["demo", "--folder"])) {
        Err(ArgError::OptionWithoutValue(k)) => {
            assert_eq!(k, "--folder");
        }
        _ => panic!("expected a missing-value error"),
    }
}

#[test]
fn missing_name_is_an_error() {
    assert!(matches!(parse_args(strings(&[])), Err(ArgError::MissingProjectName)));
    assert!(matches!(parse_args(strings(&["-F"])), Err(ArgError::MissingProjectName)));
}

#[test]
fn leftover_arguments_are_an_error() {
    match parse_args(strings(&["demo", "extra"])) {
        Err(ArgError::UnexpectedArguments(rest)) => {
            assert_eq!(rest, vec!["extra".to_string()]);
        }
        _ => panic!("expected leftover arguments"),
    }
}

#[test]
fn a_repeated_option_is_not_consumed_twice() {
    match parse_args(strings(&["-d", "a", "-d", "b", "n"])) {
        Err(ArgError::UnexpectedArguments(rest)) => {
            assert_eq!(rest, vec!["b".to_string(), "n".to_string()]);
        }
        _ => panic!("expected leftover arguments"),
    }
}

#[test]
fn error_messages() {
    let e = ArgError::OptionWithoutValue("-d".to_string());
    assert_eq!(e.message(), "the '-d' option doesn't have an associated value");
    assert_eq!(ArgError::MissingProjectName.message(), "free-standing argument is missing");
    let u = ArgError::UnexpectedArguments(vec!["x".to_string()]);
    assert_eq!(u.message(), "unknown/duplicate arguments");
}

#[test]
fn usage_text_names_the_options() {
    let u = pyscaffold::args::usage_text();
    assert!(u.starts_with("\nUsage: pyscaffold [options] name"));
    assert!(u.contains("-d, --dir <DIRECTORY>"));
    assert!(u.contains("-f, --folder <FOLDER>"));
    assert!(u.contains("-h, --help"));
}
