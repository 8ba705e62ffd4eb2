use vstd::prelude::*;

verus! {

/// `anyhow::Error`, carried through unopened.
#[verifier::external_type_specification]
#[verifier::external_body]
pub struct ExAnyhowError(anyhow::Error);

/// `candle_core::Error`, carried through unopened.
#[verifier::external_type_specification]
#[verifier::external_body]
pub struct ExCandleError(candle_core::Error);

/// Why an assembly ended without a runtime.
pub enum BuildError {
    /// No default device could be had.
    Device(candle_core::Error),
    /// The engine could not construct a loader for the configuration.
    Loader(anyhow::Error),
    /// The loader could not materialize the model.
    Load(anyhow::Error),
    /// The fixed-capacity scheduler needs room for at least one sequence.
    MaxNumSeqs,
    /// The engine could not finalize the runtime.
    Runtime(anyhow::Error),
    /// The driver reported something that the current stage does not wait for.
    UnexpectedEvent,
}

} // verus!
