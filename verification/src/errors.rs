use vstd::prelude::*;

verus! {

/// Everything that can go wrong while loading, selecting, constructing,
/// activating or starting a plugin. Each operation's contract says exactly
/// which variant it returns and when.
#[derive(Clone, Copy, Debug, PartialEq, Eq, Structural)]
pub enum HostError {
    /// The bundle path does not exist or is not a valid plugin module.
    LoadError,
    /// The loaded module exports no plugin factory.
    FactoryMissing,
    /// No descriptor in the bundle carries the requested identifier.
    NotFound,
    /// The plugin's own initialization reported failure.
    ConstructionError,
    /// The requested audio configuration is unsupported.
    ActivationError,
    /// The plugin rejected entry into realtime processing.
    StartError,
    /// A host identity field violates the plugin interface's encoding rules.
    InvalidIdentity,
    /// A lifecycle operation was requested in a state that forbids it.
    IllegalState,
}

} // verus!
