//! The bridge's error taxonomy. Every failure path of the library is returned
//! to exactly one caller through one of these types; none is silently dropped.

use vstd::prelude::*;
use crate::values::ScriptValue;

verus! {

/// Why module resolution failed.
#[derive(Clone, Debug, PartialEq, Eq, Structural)]
pub enum ResolveError {
    /// No configured loader strategy claimed the identifier.
    NoLoaderMatched,
    /// The claiming strategy's fetch failed.
    FetchFailed,
    /// The claiming strategy's security policy rejected the identifier
    /// before any fetch was attempted.
    PolicyRejected,
}

/// Why the preprocessing pipeline rejected a module's source.
#[derive(Clone, Debug)]
pub enum PreprocessError {
    /// The source does not parse in its declared dialect.
    Syntax(String),
    /// The source parses but cannot be transformed to the target dialect.
    Transform(String),
}

/// Why a job or an environment operation failed.
#[derive(Clone, Debug)]
pub enum EnvError {
    /// The environment is torn down or not yet serving: no work is accepted.
    Unavailable,
    /// Script code raised an error value; the value is carried to the one
    /// caller that owns the failing job.
    ScriptRaised(ScriptValue),
}

/// Why the designated entry module failed to load during startup. Every
/// variant is fatal: a bridge whose entry module did not load never serves.
#[derive(Clone, Debug)]
pub enum LoadError {
    /// No loader produced the module's source.
    Resolve(ResolveError),
    /// The preprocessing pipeline rejected the module's source.
    Preprocess(PreprocessError),
    /// The environment failed to evaluate the module.
    Env(EnvError),
}

/// Why a proxy definition could not be installed.
#[derive(Clone, Debug, PartialEq, Eq, Structural)]
pub enum InstallError {
    /// A proxy with the same namespace path and object name is already
    /// installed in this environment.
    DuplicatePath,
}

/// Why an event could not be dispatched.
#[derive(Clone, Debug, PartialEq, Eq)]
pub enum DispatchError {
    /// No proxy is installed under the given namespace path and object name.
    UnknownTarget,
    /// The target proxy was installed without the event-target capability.
    NotEventTarget,
    /// A listener raised an error while the event was being dispatched.
    ListenerFailed(String),
}

} // verus!
