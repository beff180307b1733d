//! Resolution of a repository's descriptive version string: the nearest
//! reachable tag, the distance from it and the abbreviated commit id, with a
//! `+` suffix when the working tree is dirty. Failures are sorted into a
//! closed set of error kinds so that callers can match on the category.

use vstd::prelude::*;

verus! {

#[verifier::external_type_specification]
#[verifier::external_body]
pub struct ExRepository(git2::Repository);

#[verifier::external_type_specification]
#[verifier::external_body]
pub struct ExGitError(git2::Error);

/// Why no version string could be produced.
#[derive(Clone, Debug, PartialEq)]
pub enum ResolutionError {
    /// The given path is not a valid repository root, or is inaccessible.
    RepositoryNotFound { message: String },
    /// The repository has no tag from which the checked-out commit can be
    /// described.
    NoReachableTag { message: String },
    /// The version-control backend failed for some other reason.
    BackendError { message: String },
    /// The build-time variable for this package was never exported.
    MissingBuildTimeVariable,
}

impl ResolutionError {
    /// The human-readable message carried by this error, verbatim as the
    /// backend produced it; the missing-variable error has a fixed message.
    pub fn message(&self) -> (r: &str)
        ensures
            self matches ResolutionError::RepositoryNotFound { message } ==> r@ == message@,
            self matches ResolutionError::NoReachableTag { message } ==> r@ == message@,
            self matches ResolutionError::BackendError { message } ==> r@ == message@,
            self is MissingBuildTimeVariable ==> r@ == "build-time version variable was never exported"@,
    {
        match self {
            ResolutionError::RepositoryNotFound { message } => message.as_str(),
            ResolutionError::NoReachableTag { message } => message.as_str(),
            ResolutionError::BackendError { message } => message.as_str(),
            ResolutionError::MissingBuildTimeVariable => "build-time version variable was never exported",
        }
    }
}

/// Relies on `git2::Repository::open`: opens the repository whose root is at
/// `path`, failing when the path is not a valid repository or is inaccessible.
#[verifier::external_body]
fn open_repository(path: &str) -> Result<git2::Repository, git2::Error> {
    git2::Repository::open(path)
}

/// Relies on `git2::Repository::describe` with the "describe using tags"
/// option enabled (so lightweight tags count too) and on
/// `git2::Describe::format` with the given dirty suffix: produces
/// `<tag>[-<distance>-g<abbrev>]` for the checked-out commit, with the suffix
/// appended when the working tree differs from that commit. A successful
/// description is never empty: it starts with a tag name or an abbreviated
/// commit id.
///
/// The suffix must hold no NUL character: git2 turns it into a C string and
/// panics on an interior NUL. The formatting step insists on UTF-8 output
/// and would panic on a tag name that is not valid UTF-8 (git's ref-name
/// rules allow such bytes), so the body first walks the repository's tag
/// names through `git2::Repository::tag_names` and
/// `git2::string_array::StringArray::get`, which reports a non-UTF-8 name
/// as an error instead; with every tag name valid UTF-8 the describe output
/// is valid UTF-8 and the formatting cannot fail that way.
#[verifier::external_body]
fn describe_current(repo: &git2::Repository, dirty_suffix: &str) -> (r: Result<
    String,
    git2::Error,
>)
    requires
        forall|i: int| 0 <= i < dirty_suffix@.len() ==> dirty_suffix@[i] != '\u{0}',
    ensures
        r matches Ok(s) ==> s@.len() > 0,
{
    let tags = repo.tag_names(None)?;
    for i in 0..tags.len() {
        tags.get(i)?;
    }
    let describe = repo.describe(git2::DescribeOptions::default().describe_tags())?;
    describe.format(Some(git2::DescribeFormatOptions::default().dirty_suffix(dirty_suffix)))
}

/// Relies on `git2::Error::class`: reports whether the failure came from the
/// describe step itself, which with the options used here means that no tag
/// could describe the commit, rather than from another part of the backend.
#[verifier::external_body]
fn error_is_describe_failure(e: &git2::Error) -> bool {
    match e.class() {
        git2::ErrorClass::Describe => true,
        _ => false,
    }
}

/// Relies on `git2::Error::message`: the human-readable message carried by
/// the backend error.
#[verifier::external_body]
fn error_message(e: &git2::Error) -> String {
    e.message().to_string()
}

/// Sorts a failed open call into the closed error set: any failure to open
/// the repository means the given path does not hold a valid, accessible
/// repository. The message is carried through verbatim.
pub fn classify_open_error(message: String) -> (r: ResolutionError)
    ensures
        r == (ResolutionError::RepositoryNotFound { message }),
{
    ResolutionError::RepositoryNotFound { message }
}

/// Sorts a failed describe call into the closed error set: a failure of the
/// describe step itself means the commit has no reachable tag; any other
/// failure is reported as a backend error. The message is carried through
/// verbatim either way.
pub fn classify_describe_error(describe_failure: bool, message: String) -> (r: ResolutionError)
    ensures
        describe_failure ==> r == (ResolutionError::NoReachableTag { message }),
        !describe_failure ==> r == (ResolutionError::BackendError { message }),
{
    if describe_failure {
        ResolutionError::NoReachableTag { message }
    } else {
        ResolutionError::BackendError { message }
    }
}

/// Resolves the descriptive version of the repository at `repo_path`: the
/// nearest reachable tag, the distance from it and the abbreviated commit id,
/// with a trailing `+` when the working tree has uncommitted changes.
///
/// A path that does not hold a repository yields `RepositoryNotFound`; a
/// repository whose checked-out commit no tag can describe yields
/// `NoReachableTag`; any other backend failure yields `BackendError`. No
/// empty or placeholder string is ever produced: a resolved version is
/// non-empty, on failure there is no version at all, and the
/// missing-variable error never comes from resolution.
pub fn resolve(repo_path: &str) -> (r: Result<String, ResolutionError>)
    ensures
        r matches Ok(version) ==> version@.len() > 0,
        r is Err ==> !(r->Err_0 is MissingBuildTimeVariable),
{
    let repo = match open_repository(repo_path) {
        Ok(repo) => repo,
        Err(e) => {
            let message = error_message(&e);
            return Err(classify_open_error(message));
        },
    };
    proof {
        reveal_strlit("+");
    }
    match describe_current(&repo, "+") {
        Ok(version) => Ok(version),
        Err(e) => {
            let describe_failure = error_is_describe_failure(&e);
            let message = error_message(&e);
            Err(classify_describe_error(describe_failure, message))
        },
    }
}

} // verus!
