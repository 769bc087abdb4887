//! The error taxonomy of the interceptor.

use vstd::prelude::*;

verus! {

/// Every failure the interceptor can report. All of them are fatal: the
/// interceptor never retries, and a creation call whose specification
/// could not be read or rewritten must not reach the runtime.
#[derive(Clone, Copy, Debug, PartialEq, Eq, Structural)]
pub enum InterceptError {
    /// An environment override was not of the `NAME=VALUE` form, or its
    /// name or value was empty.
    MalformedEnvVar,
    /// The bundle's configuration file was missing, unreadable, or not a
    /// structurally valid specification.
    SpecParse,
    /// The mutated specification could not be written back.
    SpecWrite,
    /// The underlying runtime binary could not be found or executed.
    SubprocessLaunch,
    /// The child's termination status could not be obtained.
    SubprocessWait,
}

impl InterceptError {
    /// A human-readable report of the failure.
    pub fn message(&self) -> (r: &'static str)
        ensures
            self is MalformedEnvVar ==> r@ == "environment variables must be in NAME=VALUE format"@,
            self is SpecParse ==> r@ == "Unable to parse OCI runtime specification"@,
            self is SpecWrite ==> r@ == "Unable to write updated OCI runtime specification"@,
            self is SubprocessLaunch ==> r@ == "Failed to execute underlying OCI runtime"@,
            self is SubprocessWait ==> r@ == "Failed to wait on OCI runtime process"@,
    {
        match self {
            InterceptError::MalformedEnvVar => "environment variables must be in NAME=VALUE format",
            InterceptError::SpecParse => "Unable to parse OCI runtime specification",
            InterceptError::SpecWrite => "Unable to write updated OCI runtime specification",
            InterceptError::SubprocessLaunch => "Failed to execute underlying OCI runtime",
            InterceptError::SubprocessWait => "Failed to wait on OCI runtime process",
        }
    }
}

} // verus!
