use alors::{is_command_allowed, is_path_accessible, AccessError, CommandError};

#[test]
fn test_command_allowed_by_empty_whitelist() {
    let command = "ls -l";
    let allowed_prefixes: Vec<String> = vec![];
    assert!(is_command_allowed(command, &allowed_prefixes).is_ok());
}

#[test]
fn test_command_allowed_by_single_prefix() {
    let command = "ls -l";
    let allowed_prefixes = vec!["ls".to_string()];
    assert!(is_command_allowed(command, &allowed_prefixes).is_ok());
}

#[test]
fn test_command_not_allowed_by_prefix() {
    let command = "rm -rf /";
    let allowed_prefixes = vec!["ls".to_string(), "echo".to_string()];
    assert!(is_command_allowed(command, &allowed_prefixes).is_err());
}

#[test]
fn test_command_allowed_by_multiple_prefixes() {
    let command = "echo 'hello'";
    let allowed_prefixes = vec!["ls".to_string(), "echo".to_string()];
    assert!(is_command_allowed(command, &allowed_prefixes).is_ok());
}

#[test]
fn test_full_path_command_allowed() {
    let command = "/bin/ls -a";
    let allowed_prefixes = vec!["/bin/ls".to_string()];
    assert!(is_command_allowed(command, &allowed_prefixes).is_ok());
}

#[test]
fn test_full_path_command_not_allowed() {
    let command = "/usr/bin/rm -rf /";
    let allowed_prefixes = vec!["/bin/ls".to_string()];
    assert!(is_command_allowed(command, &allowed_prefixes).is_err());
}

#[test]
fn test_empty_command_allowed_by_empty_whitelist() {
    let allowed_prefixes: Vec<String> = vec![];
    assert!(is_command_allowed("", &allowed_prefixes).is_ok());
}

#[test]
fn test_empty_command_not_allowed_by_nonempty_whitelist() {
    let allowed_prefixes = vec!["ls".to_string()];
    assert!(is_command_allowed("", &allowed_prefixes).is_err());
}

#[test]
fn test_prefix_match_is_not_naive_substring() {
    // the prefix must match at the start, not anywhere in the command
    let allowed_prefixes = vec!["ls".to_string()];
    assert!(is_command_allowed("echo ls", &allowed_prefixes).is_err());
}

#[test]
fn test_command_denial_reports_command_and_prefixes() {
    let allowed_prefixes = vec!["ls".to_string(), "echo".to_string()];
    match is_command_allowed("rm -rf /", &allowed_prefixes) {
        Err(CommandError::CommandDenied { command, prefixes }) => {
            assert_eq!(command, "rm -rf /");
            assert_eq!(prefixes, allowed_prefixes);
        }
        Ok(()) => panic!("denial expected"),
    }
}

#[test]
fn test_existing_path_in_accessible_root() {
    // the working directory itself lies under the configured root "."
    let accessible_paths = vec![".".to_string()];
    assert!(is_path_accessible(".", &accessible_paths).is_ok());
}

#[test]
fn test_new_file_in_current_directory_is_accessible() {
    // a bare filename that does not exist resolves against the working
    // directory, which "." makes accessible
    let accessible_paths = vec![".".to_string()];
    assert!(is_path_accessible("a_file_that_does_not_exist_yet.txt", &accessible_paths).is_ok());
}

#[test]
fn test_path_under_filesystem_root_is_accessible() {
    // descent is transitive: everything lies under the filesystem root
    let accessible_paths = vec!["/".to_string()];
    assert!(is_path_accessible(".", &accessible_paths).is_ok());
}

#[test]
fn test_no_accessible_roots_denies_everything() {
    let accessible_paths: Vec<String> = vec![];
    let result = is_path_accessible(".", &accessible_paths);
    assert!(matches!(result, Err(AccessError::NotAccessible { .. })));
}

#[test]
fn test_path_outside_accessible_root_is_denied() {
    // the accessible root lies strictly below the checked path, which must
    // not grant access upward
    let accessible_paths = vec!["/tmp".to_string()];
    let result = is_path_accessible("/", &accessible_paths);
    assert!(matches!(result, Err(AccessError::NotAccessible { .. })));
}

#[test]
fn test_denial_reports_path_and_roots() {
    let accessible_paths = vec!["/tmp".to_string()];
    match is_path_accessible("/", &accessible_paths) {
        Err(AccessError::NotAccessible { path, roots }) => {
            assert_eq!(path, "/");
            assert_eq!(roots, accessible_paths);
        }
        _ => panic!("denial expected"),
    }
}

#[test]
fn test_multiple_roots_any_one_grants_access() {
    // a root that fails to resolve is skipped, and any remaining root that
    // contains the path grants access
    let accessible_paths = vec!["/no_such_root_anywhere_xyz".to_string(), ".".to_string()];
    assert!(is_path_accessible(".", &accessible_paths).is_ok());
}

#[test]
fn test_new_file_with_missing_parent_fails_resolution() {
    // the parent directory does not exist, so the check fails with a
    // resolution error, not a denial
    let accessible_paths = vec![".".to_string()];
    let result = is_path_accessible("no_such_dir_anywhere_xyz/file.txt", &accessible_paths);
    assert!(matches!(result, Err(AccessError::PathResolutionFailed { .. })));
}

#[test]
fn test_trailing_separator_resolves_against_true_parent() {
    // a non-existent name written with a trailing separator is still judged
    // by the directory it would be created in
    let accessible_paths = vec![".".to_string()];
    assert!(is_path_accessible("a_dir_that_does_not_exist_yet/", &accessible_paths).is_ok());
    assert!(is_path_accessible("./a_dir_that_does_not_exist_yet/", &accessible_paths).is_ok());
}

#[test]
fn test_resolution_failure_carries_the_cause() {
    let accessible_paths = vec![".".to_string()];
    match is_path_accessible("no_such_dir_anywhere_xyz/file.txt", &accessible_paths) {
        Err(AccessError::PathResolutionFailed { path, attempted, cause }) => {
            assert_eq!(path, "no_such_dir_anywhere_xyz/file.txt");
            assert_eq!(attempted, b"no_such_dir_anywhere_xyz".to_vec());
            assert!(!cause.is_empty());
        }
        _ => panic!("resolution failure expected"),
    }
}

#[test]
fn test_empty_path_has_no_parent() {
    let accessible_paths = vec![".".to_string()];
    let result = is_path_accessible("", &accessible_paths);
    assert!(matches!(result, Err(AccessError::NoParentDirectory { .. })));
}

#[test]
fn test_containment_is_segment_wise_not_string_prefix() {
    // /tmp/ab is a string prefix of /tmp/abc but not an ancestor directory
    assert!(!alors::is_descendant(&b"/tmp/abc".to_vec(), &b"/tmp/ab".to_vec()));
    assert!(alors::is_descendant(&b"/tmp/ab/c".to_vec(), &b"/tmp/ab".to_vec()));
    assert!(alors::is_descendant(&b"/tmp/ab".to_vec(), &b"/tmp/ab".to_vec()));
    assert!(alors::is_descendant(&b"/tmp/ab/c/d/e".to_vec(), &b"/tmp/ab".to_vec()));
    // the filesystem root contains every absolute path
    assert!(alors::is_descendant(&b"/tmp/abc".to_vec(), &b"/".to_vec()));
    // containment is not upward
    assert!(!alors::is_descendant(&b"/tmp".to_vec(), &b"/tmp/ab".to_vec()));
}

#[test]
fn test_accessible_from_any_canonical_root() {
    let target = b"/home/user/project/file.rs".to_vec();
    let roots = vec![b"/srv".to_vec(), b"/home/user/project".to_vec()];
    assert!(alors::accessible_from(&target, &roots));
    let other_roots = vec![b"/srv".to_vec(), b"/home/user/projects".to_vec()];
    assert!(!alors::accessible_from(&target, &other_roots));
    let no_roots: Vec<Vec<u8>> = vec![];
    assert!(!alors::accessible_from(&target, &no_roots));
}
