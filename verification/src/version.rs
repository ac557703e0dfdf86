//! The version line: the package version alone for a build made in CI, and the
//! version with branch, short commit hash and a dirty mark for a local build.
//!
//! The build hands in what it knows as plain values. Nothing here looks at the
//! repository or the environment: the text is a function of those values.

use crate::text::str_eq;
use vstd::prelude::*;
use vstd::string::{StrSliceExecFns, StringExecFns};

verus! {

/// How many characters of a commit hash are shown.
pub const SHORT_SHA_LEN: usize = 7;

/// What the build recorded about the sources it was made from.
#[derive(Debug)]
pub struct VersionInfo {
    /// The package version, such as `0.1.0`.
    pub version: String,
    /// The commit hash, in full or already shortened, if the build knew it.
    pub sha: Option<String>,
    /// The branch name, if the build knew it.
    pub branch: Option<String>,
    /// Whether the working tree had uncommitted changes.
    pub dirty: bool,
    /// Whether the build was made by continuous integration.
    pub ci: bool,
}

/// The first `SHORT_SHA_LEN` characters of `sha`, or all of it if it has fewer.
pub open spec fn short_sha(sha: Seq<char>) -> Seq<char> {
    if sha.len() <= SHORT_SHA_LEN {
        sha
    } else {
        sha.subrange(0, SHORT_SHA_LEN as int)
    }
}

/// The version line for the given build facts.
///
/// A CI build, and a build without a commit hash, show the bare version.
/// Otherwise the line is one of four layouts, by branch and dirty mark.
pub open spec fn version_text(
    version: Seq<char>,
    sha: Option<Seq<char>>,
    branch: Option<Seq<char>>,
    dirty: bool,
    ci: bool,
) -> Seq<char> {
    if ci {
        version
    } else {
        match (sha, branch, dirty) {
            (Some(sha), Some(branch), true) => version + "-"@ + branch + " ("@ + short_sha(sha)
                + ") (dirty)"@,
            (Some(sha), Some(branch), false) => version + "-"@ + branch + " ("@ + short_sha(sha)
                + ")"@,
            (Some(sha), None, true) => version + " ("@ + short_sha(sha) + ") (dirty)"@,
            (Some(sha), None, false) => version + " ("@ + short_sha(sha) + ")"@,
            (None, _, _) => version,
        }
    }
}

/// The branch as it is shown behind the version: a hyphen and the name, or
/// nothing when the branch is not known.
pub open spec fn branch_suffix(branch: Option<Seq<char>>) -> Seq<char> {
    match branch {
        Some(name) => "-"@ + name,
        None => Seq::empty(),
    }
}

/// The mark that closes the line of a build from a dirty working tree.
pub open spec fn dirty_suffix(dirty: bool) -> Seq<char> {
    if dirty {
        " (dirty)"@
    } else {
        Seq::empty()
    }
}

/// A CI build, and any build that knows no commit hash, shows the package
/// version and nothing else, whatever the other values are.
pub proof fn lemma_bare_version(
    version: Seq<char>,
    sha: Option<Seq<char>>,
    branch: Option<Seq<char>>,
    dirty: bool,
    ci: bool,
)
    requires
        ci || sha is None,
    ensures
        version_text(version, sha, branch, dirty, ci) == version,
{
}

/// A local build that knows its commit hash shows, in this order: the
/// version, the branch behind a hyphen if it is known, the short hash in
/// parentheses, and the dirty mark if the tree was dirty.
pub proof fn lemma_local_version_layout(
    version: Seq<char>,
    sha: Seq<char>,
    branch: Option<Seq<char>>,
    dirty: bool,
)
    ensures
        version_text(version, Some(sha), branch, dirty, false) == version + branch_suffix(branch)
            + " ("@ + short_sha(sha) + ")"@ + dirty_suffix(dirty),
{
    reveal_strlit(")");
    reveal_strlit(" (dirty)");
    reveal_strlit(") (dirty)");
    assert(")"@ + " (dirty)"@ =~= ") (dirty)"@);
    let shown = version_text(version, Some(sha), branch, dirty, false);
    let parts = version + branch_suffix(branch) + " ("@ + short_sha(sha) + ")"@ + dirty_suffix(
        dirty,
    );
    assert(shown =~= parts);
}

/// The short hash is the start of the hash, cut after `SHORT_SHA_LEN`
/// characters: a hash that is no longer than that is shown whole.
pub proof fn lemma_short_sha(sha: Seq<char>)
    ensures
        short_sha(sha).is_prefix_of(sha),
        short_sha(sha).len() == if sha.len() <= SHORT_SHA_LEN {
            sha.len()
        } else {
            SHORT_SHA_LEN as nat
        },
        sha.len() <= SHORT_SHA_LEN ==> short_sha(sha) == sha,
{
}

/// Every version line begins with the package version.
pub proof fn lemma_version_leads(
    version: Seq<char>,
    sha: Option<Seq<char>>,
    branch: Option<Seq<char>>,
    dirty: bool,
    ci: bool,
)
    ensures
        version.is_prefix_of(version_text(version, sha, branch, dirty, ci)),
{
    let shown = version_text(version, sha, branch, dirty, ci);
    assert(shown.subrange(0, version.len() as int) =~= version);
}

/// How a flag recorded by the build is read: it is set exactly when its value
/// is the word `true`.
pub open spec fn flag_is_set(value: Option<&str>) -> bool {
    value matches Some(word) && word@ == "true"@
}

/// The characters of an optional string.
pub open spec fn opt_chars(value: Option<String>) -> Option<Seq<char>> {
    match value {
        Some(s) => Some(s@),
        None => None,
    }
}

/// The characters of an optional string slice.
pub open spec fn opt_str_chars(value: Option<&str>) -> Option<Seq<char>> {
    match value {
        Some(s) => Some(s@),
        None => None,
    }
}

impl VersionInfo {
    /// The version line that this record stands for.
    pub open spec fn text(&self) -> Seq<char> {
        version_text(
            self.version@,
            opt_chars(self.sha),
            opt_chars(self.branch),
            self.dirty,
            self.ci,
        )
    }

    /// Reads the values that the build recorded: the package version, the CI
    /// flag, the commit hash, the branch and the dirty flag. A flag that is
    /// missing, or holds anything but `true`, is not set.
    pub fn from_build_values(
        version: &str,
        ci: Option<&str>,
        sha: Option<&str>,
        branch: Option<&str>,
        dirty: Option<&str>,
    ) -> (info: VersionInfo)
        ensures
            info.version@ == version@,
            opt_chars(info.sha) == opt_str_chars(sha),
            opt_chars(info.branch) == opt_str_chars(branch),
            info.dirty == flag_is_set(dirty),
            info.ci == flag_is_set(ci),
    {
        VersionInfo {
            version: String::from_str(version),
            sha: owned(sha),
            branch: owned(branch),
            dirty: flag_set(dirty),
            ci: flag_set(ci),
        }
    }
}

/// Whether a flag recorded by the build is set.
fn flag_set(value: Option<&str>) -> (set: bool)
    ensures
        set == flag_is_set(value),
{
    match value {
        Some(word) => str_eq(word, "true"),
        None => false,
    }
}

/// An owned copy of an optional string slice.
fn owned(value: Option<&str>) -> (copy: Option<String>)
    ensures
        opt_chars(copy) == opt_str_chars(value),
{
    match value {
        Some(s) => Some(String::from_str(s)),
        None => None,
    }
}

/// Returns the version line for use in command-line output.
///
/// Never fails: whatever is missing makes the line shorter.
pub fn version_string(info: &VersionInfo) -> (line: String)
    ensures
        line@ == info.text(),
{
    let mut line = String::from_str(info.version.as_str());
    if info.ci {
        return line;
    }
    match &info.sha {
        None => line,
        Some(sha) => {
            if let Some(branch) = &info.branch {
                line.append("-");
                line.append(branch.as_str());
            }
            let count = sha.as_str().unicode_len();
            let keep = if count < SHORT_SHA_LEN {
                count
            } else {
                SHORT_SHA_LEN
            };
            line.append(" (");
            line.append(sha.as_str().substring_char(0, keep));
            if info.dirty {
                line.append(") (dirty)");
            } else {
                line.append(")");
            }
            proof {
                assert(sha@.subrange(0, keep as int) =~= short_sha(sha@));
            }
            line
        },
    }
}

} // verus!
