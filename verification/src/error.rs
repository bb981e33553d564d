use vstd::prelude::*;

verus! {

/// The failure modes of the plugin core.
///
/// In the running plugin every one of these is fatal: the boundary code that
/// receives the `Err` aborts the guest. The core itself reports them as a
/// typed result so that each function can say exactly on which inputs the
/// failure occurs.
#[derive(Clone, Copy, Debug, PartialEq, Eq, Structural)]
pub enum PluginError {
    /// A script was submitted before the interpreter lifecycle reached
    /// its ready state.
    NotInitialized,
    /// A byte span that must carry UTF-8 text does not decode as UTF-8.
    InvalidUtf8,
    /// The interpreter raised an exception while executing a script.
    ScriptRaised,
}

} // verus!
