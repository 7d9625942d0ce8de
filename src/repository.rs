use vstd::prelude::*;

use crate::error::MercurialErr;
use crate::file_status::FileStatus;
use crate::mercurial_file::{FileEntry, MercurialFile};
use crate::paths::{relative_to, strip_root};
use crate::snapshot::{capture_result, entries_of, parse_status_capture};

verus! {

/// What a repository handle holds: its root and the entries of its current
/// snapshot.
pub struct RepositoryView {
    pub root: Seq<char>,
    pub entries: Seq<FileEntry>,
}

/// A Mercurial repository: a root directory and the status snapshot taken
/// there most recently.
#[derive(Debug, Clone)]
pub struct MercurialRepository {
    path: String,
    files: Vec<MercurialFile>,
}

impl View for MercurialRepository {
    type V = RepositoryView;

    closed spec fn view(&self) -> RepositoryView {
        RepositoryView { root: self.path@, entries: entries_of(self.files@) }
    }
}

/// The status recorded for `rel`: that of the first entry with this path,
/// or `NotTracked` when no entry has it.
pub open spec fn lookup(entries: Seq<FileEntry>, rel: Seq<char>) -> FileStatus
    decreases entries.len(),
{
    if entries.len() == 0 {
        FileStatus::NotTracked
    } else if entries[0].path == rel {
        entries[0].status
    } else {
        lookup(entries.skip(1), rel)
    }
}

/// The answer to a status query on `path`: paths outside the root are an
/// error, a directory is reported as such, and any other path has the
/// status that the snapshot records for it.
pub open spec fn status_query(repo: RepositoryView, path: Seq<char>, is_dir: bool) -> Result<
    FileStatus,
    MercurialErr,
> {
    match relative_to(repo.root, path) {
        None => Err(MercurialErr::StatusError),
        Some(rel) => if is_dir {
            Ok(FileStatus::Directory)
        } else {
            Ok(lookup(repo.entries, rel))
        },
    }
}

/// Whether any entry of a snapshot is not `Clean`.
pub open spec fn is_dirty_snapshot(entries: Seq<FileEntry>) -> bool {
    exists|i: int| 0 <= i < entries.len() && entries[i].status != FileStatus::Clean
}

proof fn lemma_lookup_absent(entries: Seq<FileEntry>, rel: Seq<char>)
    requires
        forall|i: int| 0 <= i < entries.len() ==> (#[trigger] entries[i]).path != rel,
    ensures
        lookup(entries, rel) == FileStatus::NotTracked,
    decreases entries.len(),
{
    if entries.len() > 0 {
        assert(entries[0].path != rel);
        let rest = entries.skip(1);
        assert forall|i: int| 0 <= i < rest.len() implies (#[trigger] rest[i]).path != rel by {
            assert(rest[i] == entries[i + 1]);
        }
        lemma_lookup_absent(rest, rel);
    }
}

/// A query on a directory under the root reports `Directory`, whether or
/// not the snapshot has an entry with its path.
pub proof fn lemma_directory_status(repo: RepositoryView, path: Seq<char>)
    requires
        relative_to(repo.root, path) is Some,
    ensures
        status_query(repo, path, true) == Ok::<FileStatus, MercurialErr>(FileStatus::Directory),
{
}

/// A query on a path under the root that is not a directory and has no
/// entry in the snapshot reports `NotTracked`, not an error.
pub proof fn lemma_untracked_status(repo: RepositoryView, path: Seq<char>)
    requires
        relative_to(repo.root, path) is Some,
        forall|i: int|
            0 <= i < repo.entries.len() ==> (#[trigger] repo.entries[i]).path != relative_to(
                repo.root,
                path,
            )->0,
    ensures
        status_query(repo, path, false) == Ok::<FileStatus, MercurialErr>(FileStatus::NotTracked),
{
    lemma_lookup_absent(repo.entries, relative_to(repo.root, path)->0);
}

/// A query on a path outside the root fails with `StatusError`, whatever
/// the path is.
pub proof fn lemma_outside_root(repo: RepositoryView, path: Seq<char>, is_dir: bool)
    requires
        relative_to(repo.root, path) is None,
    ensures
        status_query(repo, path, is_dir) == Err::<FileStatus, MercurialErr>(
            MercurialErr::StatusError,
        ),
{
}

/// A snapshot is clean exactly when every entry is `Clean`; in particular
/// an empty snapshot is clean.
pub proof fn lemma_clean_iff_all_clean(entries: Seq<FileEntry>)
    ensures
        !is_dirty_snapshot(entries) <==> forall|i: int|
            0 <= i < entries.len() ==> (#[trigger] entries[i]).status == FileStatus::Clean,
        entries.len() == 0 ==> !is_dirty_snapshot(entries),
{
}

impl MercurialRepository {
    /// A handle on the repository at `path`, whose snapshot is parsed from
    /// `capture`, the output of `hg status --all` run there.
    pub fn new(path: &str, capture: &[u8]) -> (r: Result<MercurialRepository, MercurialErr>)
        ensures
            match capture_result(capture@) {
                Ok(es) => r matches Ok(repo) && repo@ == (RepositoryView { root: path@, entries: es }),
                Err(e) => r == Err::<MercurialRepository, MercurialErr>(e),
            },
    {
        let files = match parse_status_capture(capture) {
            Ok(files) => files,
            Err(e) => {
                return Err(e);
            },
        };
        Ok(MercurialRepository { path: String::from_str(path), files })
    }

    /// Replaces the snapshot by the one parsed from a fresh `capture`. On
    /// failure the handle is left as it was.
    pub fn update_repo(&mut self, capture: &[u8]) -> (r: Result<(), MercurialErr>)
        ensures
            match capture_result(capture@) {
                Ok(es) => r is Ok && final(self)@ == (RepositoryView {
                    root: old(self)@.root,
                    entries: es,
                }),
                Err(e) => r == Err::<(), MercurialErr>(e) && final(self)@ == old(self)@,
            },
    {
        match parse_status_capture(capture) {
            Ok(files) => {
                self.files = files;
                Ok(())
            },
            Err(e) => Err(e),
        }
    }

    /// The root directory of the repository.
    pub fn path(&self) -> (r: &str)
        ensures
            r@ == self@.root,
    {
        self.path.as_str()
    }

    /// The entries of the current snapshot, in the order `hg` printed them.
    pub fn files(&self) -> (r: &Vec<MercurialFile>)
        ensures
            entries_of(r@) == self@.entries,
    {
        &self.files
    }

    /// The status of `file_name`, which must start with the root exactly as
    /// the repository was opened with it; `is_dir` tells whether it names a
    /// directory. Paths outside the root are rejected before anything else.
    pub fn get_file_status(&self, file_name: &str, is_dir: bool) -> (r: Result<
        FileStatus,
        MercurialErr,
    >)
        ensures
            r == status_query(self@, file_name@, is_dir),
    {
        let rel = match strip_root(self.path.as_str(), file_name) {
            Some(rel) => rel,
            None => {
                return Err(MercurialErr::StatusError);
            },
        };
        if is_dir {
            return Ok(FileStatus::Directory);
        }
        let ghost es = entries_of(self.files@);
        let n = self.files.len();
        let mut i: usize = 0;
        assert(es.skip(0) =~= es);
        while i < n
            invariant
                n == self.files@.len(),
                es == entries_of(self.files@),
                i <= n,
                !is_dir,
                relative_to(self@.root, file_name@) == Some(rel@),
                lookup(es, rel@) == lookup(es.skip(i as int), rel@),
            decreases n - i,
        {
            let ghost rest = es.skip(i as int);
            assert(rest.len() > 0 && rest[0] == self.files@[i as int]@);
            if self.files[i].has_path(&rel) {
                assert(lookup(rest, rel@) == rest[0].status);
                return Ok(self.files[i].status());
            }
            assert(rest.skip(1) =~= es.skip(i + 1));
            i = i + 1;
        }
        assert(es.skip(n as int).len() == 0);
        Ok(FileStatus::NotTracked)
    }

    /// Whether any entry of the snapshot is not `Clean`.
    pub fn is_dirty_repo(&self) -> (r: bool)
        ensures
            r == is_dirty_snapshot(self@.entries),
    {
        let ghost es = entries_of(self.files@);
        let n = self.files.len();
        let mut i: usize = 0;
        while i < n
            invariant
                n == self.files@.len(),
                es == entries_of(self.files@),
                i <= n,
                forall|j: int| 0 <= j < i ==> es[j].status == FileStatus::Clean,
            decreases n - i,
        {
            if self.files[i].is_dirty() {
                assert(es[i as int].status != FileStatus::Clean);
                return true;
            }
            i = i + 1;
        }
        false
    }
}

} // verus!
