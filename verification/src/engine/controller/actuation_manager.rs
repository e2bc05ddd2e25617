//! Actuation error vocabulary and the default (logging) actuation manager.
use vstd::prelude::*;

verus! {

#[derive(Debug, Clone, PartialEq, Eq)]
pub enum ActuationError {
    UnsupportedAction(&'static str),
}

/// Executes domain intents by reporting them; the reporting itself is done by the runtime.
#[derive(Debug, Default)]
pub struct DefaultActuationManager;

} // verus!
