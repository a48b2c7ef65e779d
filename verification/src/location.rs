//! Where the state is kept: the configuration directory that the platform's
//! conventions give for an identity triple, and the one file inside it.

use directories::ProjectDirs;
use std::path::PathBuf;
use vstd::prelude::*;

use crate::error::Error;
use crate::persist::Persist;

verus! {

/// `directories::ProjectDirs`: a resolved set of project directories. It is
/// carried as it came; nothing is known of what it holds.
#[verifier::external_type_specification]
#[verifier::external_body]
pub struct ExProjectDirs(ProjectDirs);

/// `std::path::PathBuf`: an owned path, carried as it came.
#[verifier::external_type_specification]
#[verifier::external_body]
pub struct ExPathBuf(PathBuf);

/// The name of the state file. It does not depend on the backend in use.
pub const FILE_NAME: &'static str = "persist.json";

/// The configuration directory of a resolved location: what
/// `directories::ProjectDirs::config_dir` returns for it.
pub uninterp spec fn config_dir_of(location: ProjectDirs) -> PathBuf;

/// The path `dir` extended by `name`: what `std::path::Path::join` returns
/// for the two.
pub uninterp spec fn joined(dir: PathBuf, name: Seq<char>) -> PathBuf;

/// The state file of a resolved location.
pub open spec fn state_file_of(location: ProjectDirs) -> PathBuf {
    joined(config_dir_of(location), FILE_NAME@)
}

/// `directories::ProjectDirs::from`: the project directories for the triple,
/// or `None` when the system gives no home directory. The result depends on
/// the process environment, so the contract states nothing about it.
#[verifier::external_body]
fn project_dirs(qualifier: &str, organization: &str, application: &str) -> Option<ProjectDirs> {
    ProjectDirs::from(qualifier, organization, application)
}

/// `directories::ProjectDirs::config_dir`: the configuration directory held
/// in `location`, as an owned path.
#[verifier::external_body]
fn config_dir(location: &ProjectDirs) -> (dir: PathBuf)
    ensures
        dir == config_dir_of(*location),
{
    location.config_dir().to_path_buf()
}

/// `std::path::Path::join`: `dir` with `name` appended as a further component.
#[verifier::external_body]
fn join(dir: &PathBuf, name: &str) -> (path: PathBuf)
    ensures
        path == joined(*dir, name@),
{
    dir.join(name)
}

/// The directory that holds the state file of `location`.
pub fn state_dir(location: &ProjectDirs) -> (dir: PathBuf)
    ensures
        dir == config_dir_of(*location),
{
    config_dir(location)
}

/// The state file inside `dir`.
pub fn state_file(dir: &PathBuf) -> (path: PathBuf)
    ensures
        path == joined(*dir, FILE_NAME@),
{
    join(dir, FILE_NAME)
}

impl Persist {
    /// Resolves the storage location of this coordinator. The resolver is asked
    /// anew on every call and consults the process environment; when it finds
    /// nothing, the error names this coordinator.
    pub fn location(&self) -> (found: Result<ProjectDirs, Error>)
        ensures
            found matches Err(error) ==> error.reports(self@),
    {
        self.located(self.resolve())
    }

    /// Asks the resolver for the location of this coordinator's identity
    /// triple.
    pub fn resolve(&self) -> (answer: Option<ProjectDirs>) {
        let (qualifier, organization, application) = self.identity();
        project_dirs(qualifier, organization, application)
    }

    /// Turns the resolver's answer into a location or the `AppData` error for
    /// this coordinator.
    pub fn located(&self, answer: Option<ProjectDirs>) -> (found: Result<ProjectDirs, Error>)
        ensures
            answer matches Some(location) ==> found == Ok::<ProjectDirs, Error>(location),
            answer is None ==> (found matches Err(error) && error.reports(self@)),
    {
        match answer {
            Some(location) => Ok(location),
            None => Err(Error::AppData(self.clone())),
        }
    }
}

} // verus!
