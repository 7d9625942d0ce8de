//! Typed working-directory status of a Mercurial repository.
//!
//! The library parses the text that `hg status --all` prints into a
//! snapshot of tracked entries, answers per-path status queries against
//! that snapshot, and drives the upward search for an enclosing
//! repository root. Running `hg` and probing the filesystem are left to
//! the caller, which hands the results in as plain values.
pub mod error;
pub mod file_status;
pub mod locate;
pub mod mercurial_file;
pub mod paths;
pub mod repository;
pub mod snapshot;

pub use error::MercurialErr;
pub use file_status::FileStatus;
pub use locate::RootSearch;
pub use mercurial_file::MercurialFile;
pub use repository::MercurialRepository;
