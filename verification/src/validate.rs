//! Validation of caller-supplied locations and of the host triple, and
//! the choice of repository accessor.

use vstd::prelude::*;

use crate::text::str_eq;

verus! {

/// Relies on `std::path::Path::is_dir`; the answer reflects the state
/// of the file system, of which nothing further is assumed.
#[verifier::external_body]
fn path_is_dir(s: &str) -> bool {
    std::path::Path::new(s).is_dir()
}

/// Relies on `std::path::Path::is_file`; the answer reflects the state
/// of the file system, of which nothing further is assumed.
#[verifier::external_body]
fn path_is_file(s: &str) -> bool {
    std::path::Path::new(s).is_file()
}

/// The verdict a path deserves once the file system has said whether it
/// is a directory.
pub fn dir_requirement(is_dir: bool, s: &str) -> (r: Result<(), String>)
    ensures
        r.is_ok() <==> is_dir,
        r matches Err(m) ==> m@ == s@ + " is not an existing directory"@,
{
    if is_dir {
        Ok(())
    } else {
        let mut m = String::new();
        m.append(s);
        m.append(" is not an existing directory");
        Err(m)
    }
}

/// The verdict a path deserves once the file system has said whether it
/// is a file.
pub fn file_requirement(is_file: bool, s: &str) -> (r: Result<(), String>)
    ensures
        r.is_ok() <==> is_file,
        r matches Err(m) ==> m@ == s@ + " is not an existing file"@,
{
    if is_file {
        Ok(())
    } else {
        let mut m = String::new();
        m.append(s);
        m.append(" is not an existing file");
        Err(m)
    }
}

/// Accept a test directory: it must exist and be a directory.
pub fn validate_dir(s: &str) -> (r: Result<(), String>)
    ensures
        r matches Err(m) ==> m@ == s@ + " is not an existing directory"@,
{
    dir_requirement(path_is_dir(s), s)
}

/// Accept a test script: it must exist and be a file.
pub fn validate_file(s: &str) -> (r: Result<(), String>)
    ensures
        r matches Err(m) ==> m@ == s@ + " is not an existing file"@,
{
    file_requirement(path_is_file(s), s)
}

/// Accept a host triple: auto-detection leaves the placeholder
/// `unknown`, which must be replaced explicitly.
pub fn validate_host(s: &str) -> (r: Result<(), String>)
    ensures
        r.is_ok() <==> s@ != "unknown"@,
        r matches Err(m) ==> m@
            == "Failed to auto-detect host triple and was not specified. Please provide it via --host"@,
{
    if str_eq(s, "unknown") {
        let mut m = String::new();
        m.append(
            "Failed to auto-detect host triple and was not specified. Please provide it via --host",
        );
        Err(m)
    } else {
        Ok(())
    }
}

/// Whether an installed toolchain is to be removed after its probe:
/// always on the ordinary path; under artifact preservation only a
/// linked install goes, since a stale link would otherwise shadow the
/// next day's build.
pub fn should_remove_toolchain(preserve: bool, is_linked: bool) -> (r: bool)
    ensures
        r == (!preserve || is_linked),
{
    !preserve || is_linked
}

/// How the upstream repository is reached.
#[derive(Clone, Copy, Debug, PartialEq, Eq, Structural)]
pub enum Access {
    /// A local checkout of the repository.
    Checkout,
    /// The remote hosting service's API.
    Github,
}

/// The accessor variant a caller must construct: both expose commit
/// lookup, first-parent ranges, and tag-to-date resolution.
#[derive(Clone, Copy, Debug, PartialEq, Eq, Structural)]
pub enum RepoAccessor {
    LocalGit,
    GithubApi,
}

impl Access {
    /// Which accessor serves this access mode.
    pub fn repo(&self) -> (r: RepoAccessor)
        ensures
            self is Checkout <==> r is LocalGit,
            self is Github <==> r is GithubApi,
    {
        match self {
            Access::Checkout => RepoAccessor::LocalGit,
            Access::Github => RepoAccessor::GithubApi,
        }
    }
}

} // verus!
