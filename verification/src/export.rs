//! The export step: rendering the build-system directive that sets the
//! configured environment variable to the resolved version string, and the
//! read-back of the exported value by compiled code.

use vstd::prelude::*;

use crate::config::GitVersionCfg;
use crate::resolve::resolve;
use crate::resolve::ResolutionError;

verus! {

/// The directive that tells the build orchestrator to set the variable
/// `name` to `version` for the rest of the build:
/// `cargo:rustc-env=<name>=<version>`.
pub open spec fn directive_spec(name: Seq<char>, version: Seq<char>) -> Seq<char> {
    "cargo:rustc-env="@ + name + "="@ + version
}

/// The value that the build orchestrator assigns to the variable `name` when
/// it consumes `line`: everything after `cargo:rustc-env=<name>=`.
pub open spec fn directive_value(line: Seq<char>, name: Seq<char>) -> Seq<char> {
    line.subrange(
        ("cargo:rustc-env="@.len() + name.len() + "="@.len()) as int,
        line.len() as int,
    )
}

/// Renders the directive line that sets `var_name` to `version`.
pub fn directive_line(var_name: &str, version: &str) -> (r: String)
    ensures
        r@ == directive_spec(var_name@, version@),
{
    let mut out = "cargo:rustc-env=".to_owned();
    out.append(var_name);
    out.append("=");
    out.append(version);
    proof {
        assert(out@ =~= directive_spec(var_name@, version@));
    }
    out
}

/// The export step for one configuration: resolves the version of the
/// configured repository and renders the directive that sets the configured
/// variable to it.
///
/// On success the returned line sets exactly the configured variable, with
/// the resolver's non-empty output as the value. Resolution failures pass
/// through unchanged, so the missing-variable error never comes from here.
pub fn export_directive(cfg: &GitVersionCfg) -> (r: Result<String, ResolutionError>)
    ensures
        r matches Ok(line) ==> exists|version: Seq<char>|
            version.len() > 0 && line@ == #[trigger] directive_spec(cfg.var_name@, version),
        r is Err ==> !(r->Err_0 is MissingBuildTimeVariable),
{
    match resolve(cfg.repo_path.as_str()) {
        Ok(version) => {
            let line = directive_line(cfg.var_name.as_str(), version.as_str());
            proof {
                assert(line@ == directive_spec(cfg.var_name@, version@));
            }
            Ok(line)
        },
        Err(e) => Err(e),
    }
}

/// Reads back the version most recently exported for this package: the value
/// of the configured environment variable exactly as the build environment
/// handed it over. A build in which the variable was never set has no version
/// to return, which is the missing-variable error.
pub fn get_version<'a>(exported: Option<&'a str>) -> (r: Result<&'a str, ResolutionError>)
    ensures
        exported matches Some(v) ==> (r matches Ok(rv) && rv == v),
        exported is None ==> (r is Err && r->Err_0 is MissingBuildTimeVariable),
{
    match exported {
        Some(v) => Ok(v),
        None => Err(ResolutionError::MissingBuildTimeVariable),
    }
}

/// The export is deterministic: the directive is a function of the variable
/// name and the resolved version alone, so two exports whose resolver
/// produced the same version for the same configuration emit byte-identical
/// lines.
pub proof fn lemma_export_deterministic(
    name1: Seq<char>,
    version1: Seq<char>,
    name2: Seq<char>,
    version2: Seq<char>,
)
    requires
        name1 == name2,
        version1 == version2,
    ensures
        directive_spec(name1, version1) == directive_spec(name2, version2),
{
}

/// Round trip: the value that the build orchestrator extracts for the
/// variable from an emitted directive is exactly the version that was
/// exported, so a later read-back through `get_version` yields it verbatim,
/// dirty suffix included.
pub proof fn lemma_export_round_trip(name: Seq<char>, version: Seq<char>)
    ensures
        directive_value(directive_spec(name, version), name) == version,
{
    assert(directive_value(directive_spec(name, version), name) =~= version);
}

} // verus!
