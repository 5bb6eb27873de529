//! The fatal error taxonomy of the pipeline: configuration errors. External
//! process failures and filesystem failures are reported by the driver that
//! performs the step; the planner itself only rejects bad configuration.

use vstd::prelude::*;

verus! {

/// A configuration error: fatal, never retried.
#[derive(Debug, Clone, PartialEq, Eq)]
pub enum PodError {
    /// The caller passed an explicit target flag to the native compiler; the
    /// pipeline owns target selection exclusively.
    TargetFlagNotAllowed,
    /// No workspace package declares a static library build product.
    NoStaticLibTargets,
    /// The repository URL has a shape the release flow cannot read.
    BadRepoUrl { url: String },
    /// The release flow was started without an access token.
    MissingToken,
    /// The release flow was started without a tag name.
    MissingTag,
}

impl PodError {
    /// A short description of the error.
    pub fn message(&self) -> (r: String)
        ensures
            r@ == self.message_spec(),
    {
        match self {
            PodError::TargetFlagNotAllowed => String::from_str(
                "Do not pass --target to the cargo args, we handle that!",
            ),
            PodError::NoStaticLibTargets => String::from_str("No lib crates found!"),
            PodError::BadRepoUrl { url } => crate::strutil::concat2(
                "Could not parse the repo url ",
                url.as_str(),
            ),
            PodError::MissingToken => String::from_str("You must provide a GitHub access token"),
            PodError::MissingTag => String::from_str("You must provide a tag name"),
        }
    }

    pub open spec fn message_spec(self) -> Seq<char> {
        match self {
            PodError::TargetFlagNotAllowed => "Do not pass --target to the cargo args, we handle that!"@,
            PodError::NoStaticLibTargets => "No lib crates found!"@,
            PodError::BadRepoUrl { url } => "Could not parse the repo url "@ + url@,
            PodError::MissingToken => "You must provide a GitHub access token"@,
            PodError::MissingTag => "You must provide a tag name"@,
        }
    }
}

} // verus!
