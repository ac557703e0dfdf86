//! The notice shown when a newer release of the tool is available.
//!
//! Looking the latest release up is the caller's business. What comes back is
//! handed in here, and a lookup that failed is passed over in silence: it
//! never produces a notice, and never an error.

use vstd::prelude::*;
use vstd::string::StringExecFns;

verus! {

/// The running version and the latest version that is available.
#[derive(Debug)]
pub struct UpdateInfo {
    /// The version that is running.
    pub current: String,
    /// The latest version that was published.
    pub latest: String,
}

/// The one-line notice that names both versions and the command to update
/// the package called `name`.
pub open spec fn notice_text(name: Seq<char>, current: Seq<char>, latest: Seq<char>) -> Seq<char> {
    "Update available: "@ + current + " → "@ + latest + " (run `cargo install "@ + name
        + "` to update)"@
}

/// The notice that the outcome of a lookup calls for: one exactly when the
/// lookup succeeded and found a newer release.
pub open spec fn notice_for<E>(name: Seq<char>, outcome: Result<Option<UpdateInfo>, E>) -> Option<
    Seq<char>,
> {
    match outcome {
        Ok(Some(update)) => Some(notice_text(name, update.current@, update.latest@)),
        Ok(None) => None,
        Err(_) => None,
    }
}

/// Returns the notice to show after a lookup of the latest release of the
/// package `name`, or `None` when there is nothing to say: the tool is up to
/// date, or the lookup failed for whatever reason.
pub fn update_notice<E>(name: &str, outcome: &Result<Option<UpdateInfo>, E>) -> (notice: Option<
    String,
>)
    ensures
        notice is Some <==> outcome matches Ok(Some(_)),
        match notice {
            Some(line) => notice_for(name@, *outcome) == Some(line@),
            None => notice_for(name@, *outcome) is None,
        },
{
    match outcome {
        Ok(Some(update)) => {
            let mut line = String::from_str("Update available: ");
            line.append(update.current.as_str());
            line.append(" → ");
            line.append(update.latest.as_str());
            line.append(" (run `cargo install ");
            line.append(name);
            line.append("` to update)");
            Some(line)
        },
        Ok(None) => None,
        Err(_) => None,
    }
}

} // verus!
