use vstd::prelude::*;

verus! {

/// The status of one path in the working directory.
#[derive(Debug, Clone, Copy, PartialEq, Eq, Structural)]
pub enum FileStatus {
    Modified,
    Added,
    Removed,
    Clean,
    Missing,
    NotTracked,
    Ignored,
    /// Never reported by `hg`; produced by queries on a directory.
    Directory,
}

/// The status that a leading code character of a status line stands for,
/// or `None` for a character outside the known set.
pub open spec fn status_of_code(c: char) -> Option<FileStatus> {
    if c == 'M' {
        Some(FileStatus::Modified)
    } else if c == 'A' {
        Some(FileStatus::Added)
    } else if c == 'R' {
        Some(FileStatus::Removed)
    } else if c == 'C' {
        Some(FileStatus::Clean)
    } else if c == '!' {
        Some(FileStatus::Missing)
    } else if c == '?' {
        Some(FileStatus::NotTracked)
    } else if c == 'I' {
        Some(FileStatus::Ignored)
    } else {
        None
    }
}

/// The code character that `hg status` prints for a status, if it has one.
pub open spec fn code_of_status(s: FileStatus) -> Option<char> {
    match s {
        FileStatus::Modified => Some('M'),
        FileStatus::Added => Some('A'),
        FileStatus::Removed => Some('R'),
        FileStatus::Clean => Some('C'),
        FileStatus::Missing => Some('!'),
        FileStatus::NotTracked => Some('?'),
        FileStatus::Ignored => Some('I'),
        FileStatus::Directory => None,
    }
}

impl FileStatus {
    /// Whether the status counts towards a dirty working directory:
    /// anything but `Clean` does.
    pub fn is_dirty(&self) -> (r: bool)
        ensures
            r == (*self != FileStatus::Clean),
    {
        !matches!(self, FileStatus::Clean)
    }

    /// The status that a status-line code character stands for.
    pub fn from_code(c: char) -> (r: Option<FileStatus>)
        ensures
            r == status_of_code(c),
    {
        match c {
            'M' => Some(FileStatus::Modified),
            'A' => Some(FileStatus::Added),
            'R' => Some(FileStatus::Removed),
            'C' => Some(FileStatus::Clean),
            '!' => Some(FileStatus::Missing),
            '?' => Some(FileStatus::NotTracked),
            'I' => Some(FileStatus::Ignored),
            _ => None,
        }
    }
}

impl Default for FileStatus {
    fn default() -> (r: FileStatus)
        ensures
            r == FileStatus::NotTracked,
    {
        FileStatus::NotTracked
    }
}

} // verus!
