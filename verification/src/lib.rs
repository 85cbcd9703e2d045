//! Verified core of a proof-generation pipeline for a register/stack virtual
//! machine: the stage between "the VM finished executing" and "the proving
//! backend can consume the input".
//!
//! The VM interpreter and the STARK proving and verification algorithms are
//! external collaborators, consumed as black boxes. What this library states
//! and proves is the trace/memory adaptation pipeline: re-projecting VM
//! output into a flat 32-bit address space, re-encoding field elements as
//! eight 32-bit words without loss, classifying builtin memory segments,
//! choosing the preprocessed trace variant from the builtins a run declares,
//! and validating the cross-component invariants before the (expensive)
//! proving backend is invoked.

pub mod adapter;
pub mod args;
pub mod builtins;
pub mod errors;
pub mod executable;
pub mod felt;
pub mod run;
pub mod vm;

use vstd::prelude::*;
use crate::adapter::{adapt, adapt_ok, prover_input_matches, ProverInput, RawRunResult, SegmentRecord};
use crate::builtins::{
    spec_context, spec_select_variant, BuiltinId, PreProcessedTraceVariant, PublicSegmentContext,
    select_variant,
};
use crate::errors::AdaptError;

verus! {

/// Turns one finished VM run into prover input: computes the public-segment
/// context from the entry point's builtin list, selects the preprocessed
/// trace variant it calls for, and adapts the run output under those
/// choices. Because the variant is chosen from the same context the adapter
/// validates against, a variant mismatch cannot occur here; every other
/// adaptation error passes through unchanged.
pub fn prepare_prover_input(
    run: RawRunResult,
    public_addresses: &Vec<u64>,
    segments: Vec<SegmentRecord>,
    builtins: &Vec<BuiltinId>,
) -> (r: Result<(ProverInput, PreProcessedTraceVariant), AdaptError>)
    ensures
        r is Ok <==> adapt_ok(
            run.trace@,
            run.memory@,
            public_addresses@,
            segments@,
            spec_context(builtins@),
            spec_select_variant(spec_context(builtins@)),
        ),
        match r {
            Ok((pi, variant)) => {
                &&& variant == spec_select_variant(spec_context(builtins@))
                &&& prover_input_matches(
                    run.trace@,
                    run.memory@,
                    public_addresses@,
                    segments@,
                    spec_context(builtins@),
                    variant,
                    pi,
                )
            },
            Err(e) => !(e matches AdaptError::InconsistentAdaptation {
                violation: crate::errors::Inconsistency::VariantMismatch,
            }),
        },
{
    let ctx = PublicSegmentContext::new(builtins);
    let variant = select_variant(&ctx);
    match adapt(run, public_addresses, segments, &ctx, variant) {
        Ok(pi) => Ok((pi, variant)),
        Err(e) => Err(e),
    }
}

} // verus!
