use mercurial_status::paths::{parent_dir, strip_root};
use mercurial_status::{FileStatus, MercurialErr, MercurialRepository, RootSearch};

const ROOT: &str = "./test_repo";

/// What `hg status --all` prints in the fixture repository.
const CAPTURE: &str = "M file2\n\
A file5\n\
! deleted\n\
? file3\n\
I file4\n\
C file1\n\
C directory/dirfile1\n\
C directory/subdirectory/subdirectory2/dirfile2\n";

/// The directories of the fixture repository.
fn is_fixture_dir(path: &str) -> bool {
    matches!(
        path,
        "./test_repo"
            | "./test_repo/directory"
            | "./test_repo/directory/subdirectory"
            | "./test_repo/directory/subdirectory/subdirectory2"
    )
}

/// The upward search, run against the fixture: only `./test_repo` is a root.
fn find_in_fixture(start: &str, depth_max: u32) -> Option<MercurialRepository> {
    let mut search = RootSearch::new(start, depth_max);
    while let Some(s) = search {
        if s.candidate() == ROOT {
            if let Ok(repo) = MercurialRepository::new(s.candidate(), CAPTURE.as_bytes()) {
                return Some(repo);
            }
        }
        search = s.ascend();
    }
    None
}

fn status(repo: &MercurialRepository, path: &str) -> Result<FileStatus, MercurialErr> {
    repo.get_file_status(path, is_fixture_dir(path))
}

#[test]
fn test_get_repo() {
    let repo = MercurialRepository::new(ROOT, CAPTURE.as_bytes()).unwrap();
    assert!(repo.files().len() >= 8);
    assert!(repo.files().len() < 10);
    assert!(repo.is_dirty_repo());
}

#[test]
fn test_get_status() {
    let path = ROOT;
    assert!(is_fixture_dir(path));
    let repo = MercurialRepository::new(path, CAPTURE.as_bytes()).unwrap();
    assert_eq!(status(&repo, "not_a_file"), Err(MercurialErr::StatusError));
    assert_eq!(status(&repo, "./test_repo/file1").unwrap(), FileStatus::Clean);
    assert_eq!(status(&repo, "./test_repo/deleted").unwrap(), FileStatus::Missing);
    assert_eq!(status(&repo, "./test_repo/file2").unwrap(), FileStatus::Modified);
    assert_eq!(status(&repo, "./test_repo/file4").unwrap(), FileStatus::Ignored);
    assert_eq!(status(&repo, "./test_repo/directory").unwrap(), FileStatus::Directory);
    assert_eq!(
        status(&repo, "./test_repo/directory/dirfile1").unwrap(),
        FileStatus::Clean
    );
}

#[test]
fn test_find_parent_repo() {
    let repo = find_in_fixture("./test_repo/directory/subdirectory/subdirectory2", 4).unwrap();
    assert!(repo.is_dirty_repo());
}

#[test]
fn test_update_statuses() {
    let mut repo = MercurialRepository::new(ROOT, CAPTURE.as_bytes()).unwrap();
    assert_eq!(repo.files().len(), 8);
    let refreshed = format!("{}? file6\n", CAPTURE);
    repo.update_repo(refreshed.as_bytes()).unwrap();
    assert_eq!(
        status(&repo, "./test_repo/file6").unwrap(),
        FileStatus::NotTracked
    );
    assert_eq!(repo.files().len(), 9);
}

#[test]
fn test_is_dirty_repo() {
    let repo = MercurialRepository::new(ROOT, CAPTURE.as_bytes()).unwrap();
    assert!(repo.is_dirty_repo());
}

#[test]
fn locate_needs_enough_depth() {
    let start = "./test_repo/directory/subdirectory/subdirectory2";
    assert!(find_in_fixture(start, 0).is_none());
    assert!(find_in_fixture(start, 3).is_none());
    let repo = find_in_fixture(start, 10).unwrap();
    assert_eq!(repo.path(), ROOT);
    assert_eq!(
        status(&repo, "./test_repo/directory/dirfile1"),
        Ok(FileStatus::Clean)
    );
}

#[test]
fn locate_with_zero_depth_finds_nothing_next_to_root() {
    assert!(find_in_fixture("./test_repo/directory", 0).is_none());
    assert!(find_in_fixture("./test_repo/directory", 2).is_some());
}

#[test]
fn locate_visits_ancestors_in_order() {
    let mut seen: Vec<String> = Vec::new();
    let mut search = RootSearch::new("a/b/c", 10);
    while let Some(s) = search {
        seen.push(s.candidate().to_string());
        search = s.ascend();
    }
    assert_eq!(seen, vec!["a/b/c", "a/b", "a", ""]);
}

#[test]
fn locate_skips_a_root_that_fails_to_open() {
    let mut search = RootSearch::new("/r/inner/x", 5);
    let mut found = None;
    while let Some(s) = search {
        let capture: &[u8] = if s.candidate() == "/r/inner" {
            b"Z broken\n"
        } else {
            b"C kept\n"
        };
        if s.candidate() == "/r/inner" || s.candidate() == "/r" {
            if let Ok(repo) = MercurialRepository::new(s.candidate(), capture) {
                found = Some(repo);
                break;
            }
        }
        search = s.ascend();
    }
    let repo = found.unwrap();
    assert_eq!(repo.path(), "/r");
    assert!(!repo.is_dirty_repo());
}

#[test]
fn directory_wins_over_a_tracked_row() {
    let repo = MercurialRepository::new("/repo", b"M sub\nC other\n").unwrap();
    assert_eq!(repo.get_file_status("/repo/sub", true), Ok(FileStatus::Directory));
    assert_eq!(repo.get_file_status("/repo/sub", false), Ok(FileStatus::Modified));
}

#[test]
fn missing_path_is_not_tracked() {
    let repo = MercurialRepository::new(ROOT, CAPTURE.as_bytes()).unwrap();
    assert_eq!(status(&repo, "./test_repo/nothing_here"), Ok(FileStatus::NotTracked));
}

#[test]
fn path_outside_root_is_an_error() {
    let repo = MercurialRepository::new("/repo", b"C a\n").unwrap();
    assert_eq!(repo.get_file_status("/other/a", false), Err(MercurialErr::StatusError));
    assert_eq!(repo.get_file_status("/repository/a", false), Err(MercurialErr::StatusError));
    assert_eq!(repo.get_file_status("/tmp", true), Err(MercurialErr::StatusError));
    assert_eq!(repo.get_file_status("/repo/a", false), Ok(FileStatus::Clean));
}

#[test]
fn first_duplicate_entry_wins() {
    let repo = MercurialRepository::new("/repo", b"A twice\nR twice\n").unwrap();
    assert_eq!(repo.get_file_status("/repo/twice", false), Ok(FileStatus::Added));
}

#[test]
fn dirty_only_when_some_entry_is_not_clean() {
    let empty = MercurialRepository::new("/repo", b"").unwrap();
    assert!(!empty.is_dirty_repo());
    let clean = MercurialRepository::new("/repo", b"C a\nC b\n").unwrap();
    assert!(!clean.is_dirty_repo());
    let ignored = MercurialRepository::new("/repo", b"C a\nI b\n").unwrap();
    assert!(ignored.is_dirty_repo());
}

#[test]
fn undecodable_capture_is_rejected() {
    let bad: &[u8] = &[b'C', b' ', 0xff, 0xfe, b'\n'];
    assert_eq!(
        MercurialRepository::new("/repo", bad).unwrap_err(),
        MercurialErr::RepoWithError
    );
}

#[test]
fn unknown_code_in_capture_is_rejected() {
    assert_eq!(
        MercurialRepository::new("/repo", b"C a\nX foo\n").unwrap_err(),
        MercurialErr::UnknownStatusCode
    );
}

#[test]
fn failed_refresh_keeps_the_snapshot() {
    let mut repo = MercurialRepository::new("/repo", b"M a\n").unwrap();
    assert_eq!(repo.update_repo(b"? a\nX b\n"), Err(MercurialErr::UnknownStatusCode));
    assert_eq!(repo.update_repo(&[0xc3]), Err(MercurialErr::RepoWithError));
    assert_eq!(repo.files().len(), 1);
    assert_eq!(repo.get_file_status("/repo/a", false), Ok(FileStatus::Modified));
    assert_eq!(repo.update_repo(b"C a\n"), Ok(()));
    assert_eq!(repo.get_file_status("/repo/a", false), Ok(FileStatus::Clean));
    assert!(!repo.is_dirty_repo());
}

#[test]
fn strip_root_is_component_wise() {
    assert_eq!(strip_root("./test_repo", "./test_repo/file1"), Some("file1".to_string()));
    assert_eq!(strip_root("./test_repo", "./test_repo"), Some(String::new()));
    assert_eq!(strip_root("./test_repo", "./test_repo2/x"), None);
    assert_eq!(strip_root("/repo/", "/repo/a/b"), Some("a/b".to_string()));
    assert_eq!(strip_root("", "a"), Some("a".to_string()));
}

#[test]
fn parent_dir_values() {
    assert_eq!(parent_dir("./test_repo"), Some(".".to_string()));
    assert_eq!(parent_dir("."), Some(String::new()));
    assert_eq!(parent_dir(""), None);
    assert_eq!(parent_dir("/"), None);
    assert_eq!(parent_dir("/a"), Some("/".to_string()));
    assert_eq!(parent_dir("a/b/"), Some("a".to_string()));
    assert_eq!(parent_dir("/x/y/z"), Some("/x/y".to_string()));
}
