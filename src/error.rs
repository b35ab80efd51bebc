use vstd::prelude::*;

verus! {

/// Why a spliced native function could not be resolved.
#[derive(Debug, Clone, Copy, PartialEq, Eq, Structural)]
pub enum NativeError {
    /// No native function descriptor stands at this composite index
    /// (raised when asking for its signature).
    MissingFunctionType(u32),
    /// No native function descriptor stands at this composite index
    /// (raised when calling it).
    MissingFunction(u32),
}

/// Why a name or an index could not be resolved within a module instance.
#[derive(Debug, Clone, Copy, PartialEq, Eq, Structural)]
pub enum ResolutionError {
    /// The module exports nothing under the requested name.
    MissingExport,
    /// The export exists but has a different kind or signature.
    ExportMismatch,
    /// No function stands at this index.
    MissingFunction(u32),
    /// No table, memory or global stands at this index.
    MissingItem(u32),
}

/// The general error channel of every module instance operation.
#[derive(Debug, Clone)]
pub enum Error {
    /// A native (host) function index could not be resolved.
    Native(NativeError),
    /// An export, function or item could not be resolved.
    Resolution(ResolutionError),
    /// Any execution-time failure, host-reported failures included.
    Trap(String),
}

} // verus!
