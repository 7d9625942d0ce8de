use vstd::prelude::*;

use crate::error::MercurialErr;
use crate::file_status::{code_of_status, status_of_code, FileStatus};

verus! {

/// What a tracked entry holds: a path relative to the repository root and
/// its status.
pub struct FileEntry {
    pub path: Seq<char>,
    pub status: FileStatus,
}

/// One path of a status capture together with its status.
#[derive(Debug, Clone)]
pub struct MercurialFile {
    path: String,
    status: FileStatus,
}

impl View for MercurialFile {
    type V = FileEntry;

    closed spec fn view(&self) -> FileEntry {
        FileEntry { path: self.path@, status: self.status }
    }
}

/// The number of characters before the path of a status line: the code
/// character and one separating space.
pub open spec fn prefix_len(line: Seq<char>) -> int {
    if line.len() < 2 {
        line.len() as int
    } else {
        2
    }
}

/// The entry that one status line `<code> <path>` stands for. The path is
/// everything after the code and its separator, taken verbatim; a line that
/// does not start with a known code is rejected.
pub open spec fn parse_line(line: Seq<char>) -> Result<FileEntry, MercurialErr> {
    if line.len() == 0 {
        Err(MercurialErr::UnknownStatusCode)
    } else {
        match status_of_code(line[0]) {
            Some(status) => Ok(
                FileEntry { path: line.subrange(prefix_len(line), line.len() as int), status },
            ),
            None => Err(MercurialErr::UnknownStatusCode),
        }
    }
}

/// The status line that `hg status` prints for an entry.
pub open spec fn render_line(e: FileEntry) -> Seq<char> {
    seq![code_of_status(e.status)->0, ' '] + e.path
}

/// A line made of a known code character, a space and a path parses to an
/// entry with that code's status and exactly that path.
pub proof fn lemma_parse_status_line(c: char, path: Seq<char>)
    requires
        status_of_code(c) is Some,
    ensures
        parse_line(seq![c, ' '] + path) == Ok::<FileEntry, MercurialErr>(
            FileEntry { path, status: status_of_code(c)->0 },
        ),
{
    let line = seq![c, ' '] + path;
    assert(line.subrange(2, line.len() as int) =~= path);
}

/// A line whose first character is not a known code is rejected with
/// `UnknownStatusCode`, never read as some default status.
pub proof fn lemma_unknown_code_rejected(c: char, rest: Seq<char>)
    requires
        status_of_code(c) is None,
    ensures
        parse_line(seq![c] + rest) == Err::<FileEntry, MercurialErr>(MercurialErr::UnknownStatusCode),
{
    assert((seq![c] + rest)[0] == c);
}

/// Rendering an entry with a reported status and parsing the line back
/// gives the entry.
pub proof fn lemma_line_round_trip(e: FileEntry)
    requires
        e.status != FileStatus::Directory,
    ensures
        parse_line(render_line(e)) == Ok::<FileEntry, MercurialErr>(e),
{
    lemma_parse_status_line(code_of_status(e.status)->0, e.path);
}

impl MercurialFile {
    /// The path, relative to the repository root.
    pub fn path(&self) -> (r: &str)
        ensures
            r@ == self@.path,
    {
        self.path.as_str()
    }

    pub fn status(&self) -> (r: FileStatus)
        ensures
            r == self@.status,
    {
        self.status
    }

    /// Whether the entry is anything but `Clean`.
    pub fn is_dirty(&self) -> (r: bool)
        ensures
            r == (self@.status != FileStatus::Clean),
    {
        self.status.is_dirty()
    }

    /// Whether the entry's path is `p`.
    pub(crate) fn has_path(&self, p: &String) -> (r: bool)
        ensures
            r == (self@.path == p@),
    {
        self.path == *p
    }

    /// Parses one line of `hg status` output.
    pub fn from_line(line: &str) -> (r: Result<MercurialFile, MercurialErr>)
        ensures
            match parse_line(line@) {
                Ok(e) => r matches Ok(f) && f@ == e,
                Err(e) => r == Err::<MercurialFile, MercurialErr>(e),
            },
    {
        let n = line.unicode_len();
        if n == 0 {
            return Err(MercurialErr::UnknownStatusCode);
        }
        let status = match FileStatus::from_code(line.get_char(0)) {
            Some(s) => s,
            None => {
                return Err(MercurialErr::UnknownStatusCode);
            },
        };
        let start: usize = if n < 2 {
            n
        } else {
            2
        };
        let path = String::from_str(line.substring_char(start, n));
        Ok(MercurialFile { path, status })
    }
}

} // verus!
