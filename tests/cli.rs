use textmanip::cli::{Cli, Commands, Field, FindCommands, ReplaceCommands, Request, UsageError};

fn files(names: &[&str]) -> Option<Vec<String>> {
    Some(names.iter().map(|n| n.to_string()).collect())
}

#[test]
fn no_subcommand_is_no_command() {
    let cli = Cli { debug: 0, command: None };
    assert!(matches!(cli.into_request(), Err(UsageError::NoCommand)));
}

#[test]
fn complete_find_resolves() {
    let cli = Cli {
        debug: 0,
        command: Some(Commands::Find(FindCommands { input: files(&["a.txt", "b.txt"]), pattern: Some("x".to_string()) })),
    };
    match cli.into_request() {
        Ok(Request::Find { files, pattern }) => {
            assert_eq!(files, vec!["a.txt".to_string(), "b.txt".to_string()]);
            assert_eq!(pattern, "x");
        }
        other => panic!("unexpected {:?}", other),
    }
}

#[test]
fn find_without_pattern_is_usage_error() {
    let c = FindCommands { input: files(&["a.txt"]), pattern: None };
    match c.into_request() {
        Err(UsageError::Missing(m)) => assert_eq!(m, vec![Field::Pattern]),
        other => panic!("unexpected {:?}", other),
    }
}

#[test]
fn find_with_empty_file_list_is_usage_error() {
    let c = FindCommands { input: Some(vec![]), pattern: None };
    match c.into_request() {
        Err(UsageError::Missing(m)) => assert_eq!(m, vec![Field::Input, Field::Pattern]),
        other => panic!("unexpected {:?}", other),
    }
}

#[test]
fn complete_replace_resolves() {
    let c = ReplaceCommands {
        input: files(&["a.txt"]),
        pattern: Some("p".to_string()),
        replace: Some("".to_string()),
        ignore_case: Some(true),
    };
    match c.into_request() {
        Ok(Request::Replace { files, pattern, replacement, ignore_case }) => {
            assert_eq!(files, vec!["a.txt".to_string()]);
            assert_eq!(pattern, "p");
            assert_eq!(replacement, "");
            assert!(ignore_case);
        }
        other => panic!("unexpected {:?}", other),
    }
}

#[test]
fn replace_lists_every_missing_field() {
    let c = ReplaceCommands { input: None, pattern: None, replace: None, ignore_case: None };
    let cli = Cli { debug: 1, command: Some(Commands::Replace(c)) };
    match cli.into_request() {
        Err(UsageError::Missing(m)) => {
            assert_eq!(m, vec![Field::Input, Field::Pattern, Field::Replacement, Field::IgnoreCase])
        }
        other => panic!("unexpected {:?}", other),
    }
}

#[test]
fn replace_without_ignore_case_is_usage_error() {
    let c = ReplaceCommands {
        input: files(&["a.txt"]),
        pattern: Some("p".to_string()),
        replace: Some("q".to_string()),
        ignore_case: None,
    };
    match c.into_request() {
        Err(UsageError::Missing(m)) => assert_eq!(m, vec![Field::IgnoreCase]),
        other => panic!("unexpected {:?}", other),
    }
}
