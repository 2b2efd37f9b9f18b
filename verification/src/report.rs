//! What is said to the user when a discovery fails: the step that failed, and
//! the specifier or the path it failed on.

use vstd::prelude::*;
use crate::discovery::DiscoveryErrorView;
use crate::engine::DiscoveryError;
use crate::resolution::{ResolutionError, ResolutionErrorView};
use crate::text::followed;

verus! {

/// Why a specifier did not resolve, in words.
pub open spec fn reason(cause: ResolutionErrorView) -> Seq<char> {
    match cause {
        ResolutionErrorView::NotFound(specifier) => "cannot find module '"@ + specifier + "'"@,
        ResolutionErrorView::Package(error) => error.message,
        ResolutionErrorView::Io { path, message } => "cannot probe '"@ + path + "': "@ + message,
    }
}

/// Why a discovery failed, in words.
pub open spec fn description(error: DiscoveryErrorView) -> Seq<char> {
    match error {
        DiscoveryErrorView::Resolve { specifier, cause } => "failed to resolve '"@ + specifier
            + "': "@ + reason(cause),
        DiscoveryErrorView::Read { path, message } => "failed to read '"@ + path + "': "@
            + message,
        DiscoveryErrorView::Parse { path, message } => "failed to parse module '"@ + path
            + "': "@ + message,
    }
}

/// `before`, then `subject` between quotes, then a colon and `detail`.
fn sentence(before: &str, subject: &str, detail: &str) -> (r: String)
    ensures
        r@ == before@ + subject@ + "': "@ + detail@,
{
    let mut r = followed(before, subject);
    r.append("': ");
    r.append(detail);
    r
}

/// Why a specifier did not resolve, in words.
pub fn explain(cause: &ResolutionError) -> (r: String)
    ensures
        r@ == reason(cause@),
{
    match cause {
        ResolutionError::NotFound(specifier) => {
            let mut r = followed("cannot find module '", specifier.as_str());
            r.append("'");
            r
        },
        ResolutionError::Package(error) => error.message.clone(),
        ResolutionError::Io { path, message } => sentence(
            "cannot probe '",
            path.as_str(),
            message.as_str(),
        ),
    }
}

/// Why a discovery failed, in words.
pub fn describe(error: &DiscoveryError) -> (r: String)
    ensures
        r@ == description(error@),
{
    match error {
        DiscoveryError::Resolve { specifier, cause } => {
            let why = explain(cause);
            sentence("failed to resolve '", specifier.as_str(), why.as_str())
        },
        DiscoveryError::Read { path, message } => sentence(
            "failed to read '",
            path.as_str(),
            message.as_str(),
        ),
        DiscoveryError::Parse { path, message } => sentence(
            "failed to parse module '",
            path.as_str(),
            message.as_str(),
        ),
    }
}

} // verus!
