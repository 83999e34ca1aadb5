//! Weight files: either an already-local path, or a (repository, relative
//! path) pair that is resolved through the model hub, short-circuited to a
//! plain join when the repository identifier names a local directory.
//!
//! Fetching is idempotent and has no side effect beyond the local cache.

use vstd::prelude::*;

use crate::error::DiffusionError;

verus! {

/// A file inside a model repository.
pub struct Repository {
    /// The repository identifier (a hub model id, or a local directory).
    pub repository: String,
    /// The path of the file inside the repository.
    pub path: String,
}

/// Relies on `std::path::Path::exists`: whether something of this name is
/// present on the local filesystem. The result depends on the machine.
#[verifier::external_body]
fn path_exists(p: &String) -> bool {
    std::path::Path::new(p.as_str()).exists()
}

/// Relies on `hf_hub::api::sync::Api`: `Api::model(..).get(..)` downloads
/// the file into the local cache (or reuses the cached copy) and returns
/// its local path. The result depends on the network and the machine.
/// Known defect inherited from the hub client: its metadata request
/// unwraps the Location header of a redirect response, so a server
/// answering a redirect without one panics here; no input excludes that.
#[verifier::external_body]
fn hub_fetch(repository: &String, path: &String) -> Result<String, String> {
    let api = hf_hub::api::sync::Api::new().map_err(|e| format!("{e}"))?;
    let local = api.model(repository.clone()).get(path.as_str()).map_err(|e| format!("{e}"))?;
    Ok(local.display().to_string())
}

impl Repository {
    /// Create a repository file reference.
    pub fn new(repository: &str, path: &str) -> (r: Self)
        ensures
            r.repository@ == repository@,
            r.path@ == path@,
    {
        Repository { repository: repository.to_owned(), path: path.to_owned() }
    }

    /// Resolve this file to a local path: a plain join of identifier and
    /// relative path when the repository identifier names an existing local
    /// directory, otherwise a hub fetch. Which branch runs depends on the
    /// machine, so only the error shape is promised.
    pub fn fetch(&self) -> (r: Result<String, DiffusionError>)
        ensures
            r matches Err(e) ==> e matches DiffusionError::Fetch(_),
    {
        if path_exists(&self.repository) {
            let mut joined = self.repository.clone();
            joined.append("/");
            joined.append(self.path.as_str());
            Ok(joined)
        } else {
            match hub_fetch(&self.repository, &self.path) {
                Ok(p) => Ok(p),
                Err(e) => Err(DiffusionError::Fetch(e)),
            }
        }
    }
}

/// A weight file: already local, or to be fetched from a repository.
pub enum File {
    /// An already-local file path.
    Path(String),
    /// A file inside a (possibly remote) repository.
    Repository(Repository),
}

impl File {
    /// Resolve this file to a local path. A local path is returned as it
    /// is; a repository file goes through [`Repository::fetch`].
    pub fn fetch(&self) -> (r: Result<String, DiffusionError>)
        ensures
            self matches File::Path(p) ==> r matches Ok(q) && q@ == p@,
            r matches Err(e) ==> e matches DiffusionError::Fetch(_),
    {
        match self {
            File::Path(path) => Ok(path.clone()),
            File::Repository(repository) => repository.fetch(),
        }
    }
}

} // verus!
