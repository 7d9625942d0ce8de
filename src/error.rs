use vstd::prelude::*;

verus! {

/// The ways an operation on a repository can fail.
#[derive(Debug, Clone, Copy, PartialEq, Eq, Structural)]
pub enum MercurialErr {
    /// The `hg` executable is not installed.
    HgNotFound,
    /// Running `hg` at the given root failed, or the root is not a repository.
    NotMercurialRepository,
    /// The status capture is not valid UTF-8 text.
    RepoWithError,
    /// A queried path does not lie under the repository root.
    StatusError,
    /// A status line starts with a character outside the known code set.
    UnknownStatusCode,
}

/// The human-readable message of each error.
pub open spec fn message_of(e: MercurialErr) -> Seq<char> {
    match e {
        MercurialErr::HgNotFound => "Mercurial is not installed"@,
        MercurialErr::NotMercurialRepository => "Not a Mercurial repository"@,
        MercurialErr::RepoWithError => "Mercurial repository has errors"@,
        MercurialErr::StatusError => "Error getting file status"@,
        MercurialErr::UnknownStatusCode => "Unknown file status code"@,
    }
}

impl MercurialErr {
    /// A short description of the error, for display.
    pub fn message(&self) -> (r: &'static str)
        ensures
            r@ == message_of(*self),
    {
        match self {
            MercurialErr::HgNotFound => "Mercurial is not installed",
            MercurialErr::NotMercurialRepository => "Not a Mercurial repository",
            MercurialErr::RepoWithError => "Mercurial repository has errors",
            MercurialErr::StatusError => "Error getting file status",
            MercurialErr::UnknownStatusCode => "Unknown file status code",
        }
    }
}

} // verus!
