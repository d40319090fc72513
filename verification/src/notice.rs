//! How grave a notice shown to the user is.

use vstd::prelude::*;
use vstd::string::StringExecFns;

verus! {

/// The severity of a notice.
#[derive(Debug, Clone, Copy, PartialEq, Eq, Structural)]
pub enum Severity {
    Info,
    Warning,
    Error,
}

/// The severity that `tag` names: `"warning"` and `"error"` name their own,
/// and every other text, `"info"` among them, names `Info`.
pub open spec fn spec_severity(tag: Seq<char>) -> Severity {
    if tag == "warning"@ {
        Severity::Warning
    } else if tag == "error"@ {
        Severity::Error
    } else {
        Severity::Info
    }
}

/// The severity that `tag` names.
pub fn severity_of(tag: &str) -> (severity: Severity)
    ensures
        severity == spec_severity(tag@),
{
    let tag = String::from_str(tag);
    if tag == String::from_str("warning") {
        Severity::Warning
    } else if tag == String::from_str("error") {
        Severity::Error
    } else {
        Severity::Info
    }
}

} // verus!
