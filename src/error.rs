use vstd::prelude::*;

verus! {

/// Every way an invocation of a guest can fail.
#[derive(Debug, PartialEq, Eq)]
pub enum RuntimeError {
    /// Invalid path arithmetic or permission setup.
    Configuration(String),
    /// The identifier does not resolve to a readable binary (the path tried).
    ModuleNotFound(String),
    /// The binary was read but is not a valid module.
    Compile(String),
    /// Creating the exposed host directory or binding a capability failed.
    SandboxSetup(String),
    /// The module could not be linked against the granted capabilities.
    Instantiation(String),
    /// The guest terminated explicitly with this non-zero status.
    GuestExit(i32),
    /// The guest trapped or the engine reported a runtime error.
    EngineFault(String),
    /// Standard output was not UTF-8 (empty text) or not one JSON value (its text).
    MalformedOutput(String),
}

} // verus!
