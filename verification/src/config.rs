//! Configuration for the version export: which environment variable to set
//! and which repository working directory to describe.

use vstd::prelude::*;

verus! {

/// Uppercases an ASCII lowercase letter; every other character is unchanged.
pub open spec fn upper_char(c: char) -> char {
    if 'a' <= c && c <= 'z' {
        ((c as u8 - 0x20) as u8) as char
    } else {
        c
    }
}

/// The character-by-character ASCII uppercasing of a character sequence.
pub open spec fn upper_seq(s: Seq<char>) -> Seq<char> {
    s.map_values(|c: char| upper_char(c))
}

/// The environment variable name derived from a package identifier:
/// the identifier uppercased, followed by `_GIT_VERSION`.
pub open spec fn var_name_spec(package: Seq<char>) -> Seq<char> {
    upper_seq(package) + "_GIT_VERSION"@
}

fn to_upper_char(c: char) -> (r: char)
    ensures
        r == upper_char(c),
{
    if 'a' <= c && c <= 'z' {
        (c as u8 - 0x20) as char
    } else {
        c
    }
}

/// Relies on `String::push`: appends the given character to the end of the string.
#[verifier::external_body]
fn push_char(s: &mut String, c: char)
    ensures
        final(s)@ == old(s)@.push(c),
{
    s.push(c);
}

/// Uppercases the ASCII letters of a string, leaving all other characters as
/// they are.
pub fn to_uppercase_ascii(s: &str) -> (r: String)
    ensures
        r@ == upper_seq(s@),
{
    let n = s.unicode_len();
    let mut out = String::new();
    let mut i: usize = 0;
    while i < n
        invariant
            n == s@.len(),
            i <= n,
            out@ == upper_seq(s@.subrange(0, i as int)),
        decreases n - i,
    {
        let c = s.get_char(i);
        let u = to_upper_char(c);
        push_char(&mut out, u);
        proof {
            assert(s@.subrange(0, i + 1 as int) =~= s@.subrange(0, i as int).push(s@[i as int]));
            assert(upper_seq(s@.subrange(0, i as int)).push(upper_char(s@[i as int])) =~= upper_seq(
                s@.subrange(0, i + 1 as int),
            ));
        }
        i += 1;
    }
    proof {
        assert(s@.subrange(0, n as int) =~= s@);
    }
    out
}

/// Settings for one export: the environment variable that will carry the
/// version string and the path of the repository to describe.
///
/// Both fields are expected to be non-empty; every constructor of this type
/// establishes that.
#[derive(Clone, Debug, PartialEq)]
pub struct GitVersionCfg {
    /// The name of the environment variable to set
    pub var_name: String,
    /// The path to the git repository
    pub repo_path: String,
}

impl GitVersionCfg {
    /// Both fields non-empty: the invariant every constructor establishes.
    pub open spec fn well_formed(self) -> bool {
        &&& self.var_name@.len() > 0
        &&& self.repo_path@.len() > 0
    }

    /// The configuration for a given package identifier: the variable name is
    /// the identifier uppercased with the suffix `_GIT_VERSION`, and the
    /// repository path is the current directory.
    pub fn for_package(package: &str) -> (r: GitVersionCfg)
        ensures
            r.var_name@ == var_name_spec(package@),
            r.repo_path@ == "./"@,
            r.well_formed(),
    {
        let upper = to_uppercase_ascii(package);
        let var_name = upper.concat("_GIT_VERSION");
        proof {
            reveal_strlit("_GIT_VERSION");
            reveal_strlit("./");
        }
        GitVersionCfg { var_name, repo_path: "./".to_owned() }
    }
}

impl Default for GitVersionCfg {
    /// The configuration for this package itself: variable name
    /// `GIT_DESCRIBE_GIT_VERSION`, repository path `./`.
    fn default() -> (r: GitVersionCfg)
        ensures
            r.var_name@ == var_name_spec("git_describe"@),
            r.repo_path@ == "./"@,
            r.well_formed(),
    {
        GitVersionCfg::for_package("git_describe")
    }
}

} // verus!
