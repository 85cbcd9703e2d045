//! Run configuration: the explicit value object the execution driver hands
//! the VM. Every recognized option is a named field, so the defaulting rules
//! of proof-oriented runs are an explicit, tested mapping rather than
//! implicit defaults.

use vstd::prelude::*;

verus! {

/// The VM memory layout a run targets.
#[derive(Clone, Copy, Debug, PartialEq, Eq, Structural)]
pub enum LayoutKind {
    Plain,
    /// The layout the STARK backend's builtin set matches.
    AllCairoStwo,
}

/// A complete VM run configuration.
#[derive(Clone, Copy, Debug, PartialEq, Eq, Structural)]
pub struct RunConfig {
    /// Collect the execution trace.
    pub trace_enabled: bool,
    /// Relocate memory into the flat address space.
    pub relocate_mem: bool,
    /// Relocate the collected trace.
    pub relocate_trace: bool,
    pub layout: LayoutKind,
    /// Run with the proof-oriented memory and step discipline.
    pub proof_mode: bool,
    /// Leave the trace unpadded; the adapter consumes the exact step count.
    pub disable_trace_padding: bool,
    /// Override of the secure-run check; `None` leaves the VM's default.
    pub secure_run: Option<bool>,
    /// Override for running with builtins the layout lacks; `None` leaves
    /// the VM's default.
    pub allow_missing_builtins: Option<bool>,
}

/// The configuration of a proof-oriented run with relocation: trace on,
/// memory and trace relocated, the backend's layout, proof mode on, padding
/// off, no overrides.
pub fn proof_run_config() -> (c: RunConfig)
    ensures
        c == proof_run_config_spec(),
{
    RunConfig {
        trace_enabled: true,
        relocate_mem: true,
        relocate_trace: true,
        layout: LayoutKind::AllCairoStwo,
        proof_mode: true,
        disable_trace_padding: true,
        secure_run: None,
        allow_missing_builtins: None,
    }
}

/// The configuration of the non-relocating first run of a double-execution
/// scheme: identical to a proof run except that memory stays unrelocated.
pub fn raw_memory_run_config() -> (c: RunConfig)
    ensures
        c == (RunConfig { relocate_mem: false, ..proof_run_config_spec() }),
{
    let mut c = proof_run_config();
    c.relocate_mem = false;
    c
}

/// The proof-oriented run configuration, as a specification value.
pub open spec fn proof_run_config_spec() -> RunConfig {
    RunConfig {
        trace_enabled: true,
        relocate_mem: true,
        relocate_trace: true,
        layout: LayoutKind::AllCairoStwo,
        proof_mode: true,
        disable_trace_padding: true,
        secure_run: None,
        allow_missing_builtins: None,
    }
}

} // verus!
