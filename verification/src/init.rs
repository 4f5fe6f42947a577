//! One-time construction of the engine and its hand-over to the owner.

use crate::owner::{FluxState, PublishOutcome, SDContext};
use crate::params::{flux_kontext_config, SDInitParams};
use vstd::prelude::*;

verus! {

/// Why the engine is not there.
#[derive(Clone, Copy, Debug, PartialEq, Eq, Structural)]
pub enum InitError {
    /// The engine handed over no instance.
    EngineConstructionFailed,
    /// Someone else has claimed the construction of the engine before.
    AlreadyClaimed,
}

impl InitError {
    /// The error in words.
    pub fn message(&self) -> (text: String)
        ensures
            text@ == (match *self {
                InitError::EngineConstructionFailed =>
                    "Error: Failed to initialize Stable Diffusion context."@,
                InitError::AlreadyClaimed =>
                    "Error: Stable Diffusion context is initialized elsewhere."@,
            }),
    {
        match self {
            InitError::EngineConstructionFailed =>
                "Error: Failed to initialize Stable Diffusion context.".to_owned(),
            InitError::AlreadyClaimed =>
                "Error: Stable Diffusion context is initialized elsewhere.".to_owned(),
        }
    }
}

/// Asks to be the one who constructs the engine. The first to ask gets the
/// parameters to construct it with; anyone after is told that the
/// construction is claimed.
pub fn begin_initialization(state: &mut FluxState) -> (params: Result<SDInitParams, InitError>)
    ensures
        final(state)@ == old(state)@.claim(),
        match params {
            Ok(config) => !old(state)@.init_claimed && config@ == flux_kontext_config()
                && config@.paths_hold_no_nul(),
            Err(error) => old(state)@.init_claimed && error == InitError::AlreadyClaimed,
        },
{
    if state.claim_initialization() {
        Ok(SDInitParams::flux_kontext())
    } else {
        Err(InitError::AlreadyClaimed)
    }
}

/// Takes what the engine's construction returned: the address of the new
/// instance, or 0 where it failed. A failure leaves the owner as it was; an
/// instance is offered to the owner, and the outcome says which handle, if
/// any, the caller must now release.
pub fn initialize_flux_kontext(state: &mut FluxState, engine: usize) -> (outcome: Result<
    PublishOutcome,
    InitError,
>)
    ensures
        engine == 0 ==> outcome == Err::<PublishOutcome, InitError>(
            InitError::EngineConstructionFailed,
        ) && final(state)@ == old(state)@,
        engine != 0 ==> final(state)@ == old(state)@.publish(engine) && outcome == Ok::<
            PublishOutcome,
            InitError,
        >(
            if old(state)@.lent {
                PublishOutcome::Refused(SDContext(engine))
            } else {
                match old(state)@.slot {
                    Some(prior) => PublishOutcome::Replaced(SDContext(prior)),
                    None => PublishOutcome::Installed,
                }
            },
        ),
{
    if engine == 0 {
        Err(InitError::EngineConstructionFailed)
    } else {
        Ok(state.publish(SDContext(engine)))
    }
}

} // verus!
