use mercurial_status::snapshot::{parse_status_capture, parse_status_text};
use mercurial_status::{FileStatus, MercurialErr, MercurialFile};

#[test]
fn test_from_str() {
    let file = MercurialFile::from_line("A addfile").unwrap();
    assert_eq!(file.status(), FileStatus::Added);
    assert_eq!(file.path(), "addfile");
}

#[test]
fn every_known_code_parses() {
    let cases = [
        ('M', FileStatus::Modified),
        ('A', FileStatus::Added),
        ('R', FileStatus::Removed),
        ('C', FileStatus::Clean),
        ('!', FileStatus::Missing),
        ('?', FileStatus::NotTracked),
        ('I', FileStatus::Ignored),
    ];
    for (c, expected) in cases {
        let line = format!("{} some/path", c);
        let file = MercurialFile::from_line(&line).unwrap();
        assert_eq!(file.status(), expected);
        assert_eq!(file.path(), "some/path");
        assert_eq!(FileStatus::from_code(c), Some(expected));
    }
}

#[test]
fn path_is_taken_verbatim() {
    let file = MercurialFile::from_line("M dir/with space/ file.txt ").unwrap();
    assert_eq!(file.path(), "dir/with space/ file.txt ");
    let file = MercurialFile::from_line("? caf\u{e9}").unwrap();
    assert_eq!(file.path(), "caf\u{e9}");
}

#[test]
fn unknown_code_is_an_error() {
    assert_eq!(
        MercurialFile::from_line("X foo").unwrap_err(),
        MercurialErr::UnknownStatusCode
    );
    assert_eq!(
        MercurialFile::from_line("").unwrap_err(),
        MercurialErr::UnknownStatusCode
    );
    assert_eq!(FileStatus::from_code('X'), None);
}

#[test]
fn one_entry_per_code_round_trip() {
    let capture = "M m\nA a\nR r\nC c\n! gone\n? new\nI ign\n";
    let files = parse_status_text(capture).unwrap();
    let got: Vec<(String, FileStatus)> = files
        .iter()
        .map(|f| (f.path().to_string(), f.status()))
        .collect();
    assert_eq!(
        got,
        vec![
            ("m".to_string(), FileStatus::Modified),
            ("a".to_string(), FileStatus::Added),
            ("r".to_string(), FileStatus::Removed),
            ("c".to_string(), FileStatus::Clean),
            ("gone".to_string(), FileStatus::Missing),
            ("new".to_string(), FileStatus::NotTracked),
            ("ign".to_string(), FileStatus::Ignored),
        ]
    );
}

#[test]
fn empty_lines_are_skipped() {
    let files = parse_status_text("C a\n\nM b").unwrap();
    assert_eq!(files.len(), 2);
    assert_eq!(files[1].path(), "b");
    assert_eq!(files[1].status(), FileStatus::Modified);
    assert!(parse_status_text("").unwrap().is_empty());
    assert!(parse_status_text("\n\n").unwrap().is_empty());
}

#[test]
fn capture_bytes_are_decoded() {
    let files = parse_status_capture("C caf\u{e9}\n".as_bytes()).unwrap();
    assert_eq!(files.len(), 1);
    assert_eq!(files[0].path(), "caf\u{e9}");
    assert_eq!(
        parse_status_capture(&[b'C', b' ', 0x80]).unwrap_err(),
        MercurialErr::RepoWithError
    );
}

#[test]
fn status_helpers() {
    assert_eq!(FileStatus::default(), FileStatus::NotTracked);
    assert!(!FileStatus::Clean.is_dirty());
    assert!(FileStatus::Ignored.is_dirty());
    assert!(FileStatus::Directory.is_dirty());
    let file = MercurialFile::from_line("C x").unwrap();
    assert!(!file.is_dirty());
    assert!(MercurialFile::from_line("! x").unwrap().is_dirty());
}

#[test]
fn error_messages() {
    assert_eq!(MercurialErr::HgNotFound.message(), "Mercurial is not installed");
    assert_eq!(
        MercurialErr::StatusError.message(),
        "Error getting file status"
    );
}
