//! The error taxonomy of the bridge.

use vstd::prelude::*;

verus! {

/// Everything that can go wrong while locating the virtual machine,
/// attaching to it, or making a managed call.
#[derive(Clone, Copy, Debug, PartialEq, Eq, Structural)]
pub enum BridgeError {
    /// The runtime library is not among the process's loaded modules.
    ModuleNotFound,
    /// The enumeration entry point is absent from the runtime library.
    SymbolNotFound,
    /// The enumeration call reported zero running virtual machines.
    NoVmInstances,
    /// The calling thread could not be attached to the virtual machine.
    AttachFailed,
    /// The runtime reported the calling thread's environment as invalid.
    DetachedEnvironment,
    /// The mapping file was missing or malformed; fatal and unrecovered.
    MappingLoad,
    /// A managed call threw or returned an unexpected null.
    ManagedCall,
    /// A managed constructor threw.
    ManagedAlloc,
}

impl BridgeError {
    /// A short name for log lines; the bridge has no `Display`.
    pub fn describe(&self) -> (r: &'static str) {
        match self {
            BridgeError::ModuleNotFound => "runtime module not found",
            BridgeError::SymbolNotFound => "enumeration symbol not found",
            BridgeError::NoVmInstances => "no virtual machine instances",
            BridgeError::AttachFailed => "thread attachment failed",
            BridgeError::DetachedEnvironment => "environment detached",
            BridgeError::MappingLoad => "mapping table failed to load",
            BridgeError::ManagedCall => "managed call failed",
            BridgeError::ManagedAlloc => "managed allocation failed",
        }
    }
}

/// A load-time failure of the mapping file, with the offending line
/// (1-based; line 0 stands for a missing header).
#[derive(Clone, Copy, Debug, PartialEq, Eq, Structural)]
pub struct MappingLoadError {
    pub line: usize,
}

impl MappingLoadError {
    /// The fatal bridge error that a load failure collapses to.
    pub fn to_bridge_error(&self) -> (r: BridgeError)
        ensures
            r == BridgeError::MappingLoad,
    {
        BridgeError::MappingLoad
    }
}

} // verus!
