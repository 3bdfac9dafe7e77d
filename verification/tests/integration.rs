use slugpm::archive::{archive_append_stdin_with, archive_move_dir_with, archive_move_file_with};
use slugpm::archive::ArchiveError;
use slugpm::cli::{choose_archive_action, name_for_dir, parse_dash, resolve_title,
    strip_date_prefix, ArchiveAction, TargetKind, TitleError};
use slugpm::fsops::{FileOps, FsError, MockFileOps};
use slugpm::paths::{archive_dir_for_dir_pure, archive_dir_for_file_pure, base_name_of,
    path_join, path_parent};
use slugpm::slugs::{project_dir_for_title, slugify_title};

#[test]
fn main_test_archive_dir_for_file_pure() {
    let parent = "/foo/bar";
    let arch = archive_dir_for_file_pure(parent);
    assert_eq!(arch, "/foo/bar/archive");
}

#[test]
fn main_test_archive_dir_for_dir_pure() {
    let parent = "/foo/bar";
    let arch = archive_dir_for_dir_pure(parent);
    assert_eq!(arch, "/foo/archive");
}

#[test]
fn main_test_archive_move_file_with_mock() {
    let file = "/foo/bar.txt";
    let result = archive_move_file_with(file, &MockFileOps);
    assert!(result.is_ok());
}

#[test]
fn main_test_archive_move_dir_with_mock() {
    let dir = "/foo/bar";
    let result = archive_move_dir_with(dir, &MockFileOps);
    assert!(result.is_ok());
}

#[test]
fn integration_test_archive_dir_for_file_pure() {
    let parent = "/foo/bar";
    let arch = archive_dir_for_file_pure(parent);
    assert_eq!(arch, "/foo/bar/archive");
}

#[test]
fn integration_test_archive_dir_for_dir_pure() {
    let parent = "/foo/bar";
    let arch = archive_dir_for_dir_pure(parent);
    assert_eq!(arch, "/foo/archive");
}

#[test]
fn integration_test_archive_move_file_with_mock() {
    let file = "/foo/bar.txt";
    let result = archive_move_file_with(file, &MockFileOps);
    assert!(result.is_ok());
}

#[test]
fn integration_test_archive_move_dir_with_mock() {
    let dir = "/foo/bar";
    let result = archive_move_dir_with(dir, &MockFileOps);
    assert!(result.is_ok());
}

#[test]
fn test_archive_append_stdin_with_mock() {
    let file = "/foo/bar.txt";
    let result = archive_append_stdin_with(file, b"test input", &MockFileOps);
    assert!(result.is_ok());
}

#[test]
fn test_name_command_strips_date() {
    let base = "2025-09-13-MyProject";
    let out = strip_date_prefix(base);
    assert_eq!(out, "MyProject");
}

#[test]
fn test_slugify() {
    let title = "My Project!";
    let slug = slugify_title(title);
    assert_eq!(slug, "my-project");
}

#[test]
fn test_create_project_dir_pure() {
    let title = "Test Project";
    let dir = project_dir_for_title(title);
    assert_eq!(dir, "project/test-project");
}

#[test]
fn test_slugify_title() {
    let title = "My Project!";
    let slug = slugify_title(title);
    assert_eq!(slug, "my-project");
}

#[test]
fn test_slug_idempotent_and_charset() {
    let once = slugify_title("Let's Do It -- Again!! 2025");
    let twice = slugify_title(&once);
    assert_eq!(once, twice);
    assert!(once
        .chars()
        .all(|c| c.is_ascii_lowercase() || c.is_ascii_digit() || c == '-'));
    assert!(!once.starts_with('-') && !once.ends_with('-'));
    assert!(!once.contains("--"));
}

#[test]
fn test_archive_file_dest_reported() {
    let result = archive_move_file_with("/proj/2025/report.txt", &MockFileOps);
    assert_eq!(result.unwrap(), "/proj/2025/archive/report.txt");
}

#[test]
fn test_archive_dir_dest_reported() {
    let result = archive_move_dir_with("/proj/2025/sprint1", &MockFileOps);
    assert_eq!(result.unwrap(), "/proj/archive/sprint1");
}

#[test]
fn test_repeated_append_same_dest() {
    let first = archive_append_stdin_with("/foo/bar.txt", b"one", &MockFileOps);
    let second = archive_append_stdin_with("/foo/bar.txt", b"two more", &MockFileOps);
    let d1 = first.unwrap();
    let d2 = second.unwrap();
    assert_eq!(d1, "/foo/archive/bar.txt");
    assert_eq!(d1, d2);
}

#[test]
fn test_name_without_date_unchanged() {
    assert_eq!(strip_date_prefix("MyProject"), "MyProject");
}

#[test]
fn test_name_date_only() {
    assert_eq!(strip_date_prefix("2025-09-13"), "");
}

#[test]
fn test_name_short_name_unchanged() {
    assert_eq!(strip_date_prefix("2025-09"), "2025-09");
}

#[test]
fn test_name_for_dir_uses_base_name() {
    assert_eq!(name_for_dir("/work/2025-09-13-MyProject"), "MyProject");
    assert_eq!(name_for_dir("/work/plain"), "plain");
}

#[test]
fn test_archive_dir_for_dir_root_fallback() {
    assert_eq!(archive_dir_for_dir_pure("/"), "/archive");
}

#[test]
fn test_archive_dir_for_dir_bare_name() {
    assert_eq!(archive_dir_for_dir_pure("foo"), "archive");
}

#[test]
fn test_path_join_cases() {
    assert_eq!(path_join("/a", "b"), "/a/b");
    assert_eq!(path_join("/a/", "b"), "/a/b");
    assert_eq!(path_join("", "b"), "b");
    assert_eq!(path_join("/", "b"), "/b");
}

#[test]
fn test_path_parent_cases() {
    assert_eq!(path_parent("/foo/bar"), Some("/foo".to_string()));
    assert_eq!(path_parent("/foo"), Some("/".to_string()));
    assert_eq!(path_parent("/"), None);
    assert_eq!(path_parent(""), None);
    assert_eq!(path_parent("foo"), Some("".to_string()));
}

#[test]
fn test_base_name_cases() {
    assert_eq!(base_name_of("/foo/bar.txt"), "bar.txt");
    assert_eq!(base_name_of("bar"), "bar");
}

#[test]
fn test_parse_dash_accepts_dash() {
    assert_eq!(parse_dash("-"), Ok(true));
}

#[test]
fn test_parse_dash_rejects_other() {
    assert_eq!(
        parse_dash("x"),
        Err("expected '-', got x".to_string())
    );
}

#[test]
fn test_choose_archive_action() {
    assert_eq!(
        choose_archive_action(true, TargetKind::Other),
        Some(ArchiveAction::AppendStdin)
    );
    assert_eq!(
        choose_archive_action(false, TargetKind::File),
        Some(ArchiveAction::MoveFile)
    );
    assert_eq!(
        choose_archive_action(false, TargetKind::Dir),
        Some(ArchiveAction::MoveDir)
    );
    assert_eq!(choose_archive_action(false, TargetKind::Other), None);
}

#[test]
fn test_resolve_title_from_args() {
    let args = vec!["My".to_string(), "New".to_string(), "Project".to_string()];
    let title = resolve_title(true, &args, "").unwrap();
    assert_eq!(title, "My New Project");
}

#[test]
fn test_resolve_title_missing() {
    let args: Vec<String> = Vec::new();
    assert_eq!(resolve_title(true, &args, ""), Err(TitleError::MissingTitle));
}

#[test]
fn test_resolve_title_from_pipe() {
    let args: Vec<String> = Vec::new();
    let title = resolve_title(false, &args, "  First Line \nSecond Line\n").unwrap();
    assert_eq!(title, "First Line");
}

#[test]
fn test_resolve_title_empty_pipe() {
    let args: Vec<String> = Vec::new();
    assert_eq!(
        resolve_title(false, &args, "   \nreal text later\n"),
        Err(TitleError::EmptyStdin)
    );
    assert_eq!(resolve_title(false, &args, ""), Err(TitleError::EmptyStdin));
}

#[test]
fn test_resolve_title_unicode_whitespace_trim() {
    let args: Vec<String> = Vec::new();
    let title = resolve_title(false, &args, "\u{3000}\u{00A0} Title \u{2003}\nrest\n").unwrap();
    assert_eq!(title, "Title");
}

#[test]
fn test_resolve_title_unicode_blank_pipe() {
    let args: Vec<String> = Vec::new();
    assert_eq!(
        resolve_title(false, &args, "\u{000C}\u{2028}\nreal text later\n"),
        Err(TitleError::EmptyStdin)
    );
}

struct FailingOps;

impl FileOps for FailingOps {
    fn infallible(&self) -> bool {
        false
    }
    fn create_dir_all(&self, _path: &str) -> Result<(), FsError> {
        Err(FsError { message: "mkdir refused".to_string() })
    }
    fn rename(&self, _from: &str, _to: &str) -> Result<(), FsError> {
        Err(FsError { message: "rename refused".to_string() })
    }
    fn append(&self, _path: &str, _data: &[u8]) -> Result<(), FsError> {
        Err(FsError { message: "append refused".to_string() })
    }
}

struct RenameFailsOps;

impl FileOps for RenameFailsOps {
    fn infallible(&self) -> bool {
        false
    }
    fn create_dir_all(&self, _path: &str) -> Result<(), FsError> {
        Ok(())
    }
    fn rename(&self, _from: &str, _to: &str) -> Result<(), FsError> {
        Err(FsError { message: "cross-device link".to_string() })
    }
    fn append(&self, _path: &str, _data: &[u8]) -> Result<(), FsError> {
        Err(FsError { message: "permission denied".to_string() })
    }
}

#[test]
fn test_move_file_create_dir_error() {
    let result = archive_move_file_with("/foo/bar.txt", &FailingOps);
    match result {
        Err(ArchiveError::CreateDir { dir, cause }) => {
            assert_eq!(dir, "/foo/archive");
            assert_eq!(cause.message, "mkdir refused");
        }
        other => panic!("expected a directory-creation error, got {:?}", other),
    }
}

#[test]
fn test_move_file_rename_error() {
    let result = archive_move_file_with("/foo/bar.txt", &RenameFailsOps);
    match result {
        Err(ArchiveError::Rename { from, to, cause }) => {
            assert_eq!(from, "/foo/bar.txt");
            assert_eq!(to, "/foo/archive/bar.txt");
            assert_eq!(cause.message, "cross-device link");
        }
        other => panic!("expected a rename error, got {:?}", other),
    }
}

#[test]
fn test_move_dir_create_dir_error() {
    let result = archive_move_dir_with("/proj/2025/sprint1", &FailingOps);
    match result {
        Err(ArchiveError::CreateDir { dir, .. }) => {
            assert_eq!(dir, "/proj/archive");
        }
        other => panic!("expected a directory-creation error, got {:?}", other),
    }
}

#[test]
fn test_append_error() {
    let result = archive_append_stdin_with("/foo/bar.txt", b"data", &RenameFailsOps);
    match result {
        Err(ArchiveError::Append { dest, cause }) => {
            assert_eq!(dest, "/foo/archive/bar.txt");
            assert_eq!(cause.message, "permission denied");
        }
        other => panic!("expected an append error, got {:?}", other),
    }
}
