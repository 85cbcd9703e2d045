use cairo_vm::Felt252;
use ursus::adapter::{MemorySegmentAddresses, RawRunResult, RelocatedTraceEntry, SegmentRecord};
use ursus::args::{boxed_user_args, Arg, ProgramArguments};
use ursus::builtins::{BuiltinId, PreProcessedTraceVariant};
use ursus::prepare_prover_input;
use ursus::run::{proof_run_config, raw_memory_run_config, LayoutKind};

#[test]
fn proof_run_config_is_fully_explicit() {
    let c = proof_run_config();
    assert!(c.trace_enabled);
    assert!(c.relocate_mem);
    assert!(c.relocate_trace);
    assert_eq!(c.layout, LayoutKind::AllCairoStwo);
    assert!(c.proof_mode);
    assert!(c.disable_trace_padding);
    assert_eq!(c.secure_run, None);
    assert_eq!(c.allow_missing_builtins, None);
}

#[test]
fn raw_memory_run_differs_only_in_relocation() {
    let c = raw_memory_run_config();
    let p = proof_run_config();
    assert!(!c.relocate_mem);
    assert_eq!(
        c,
        ursus::run::RunConfig {
            relocate_mem: false,
            ..p
        }
    );
}

#[test]
fn inline_arguments_become_scalar_values() {
    let p = ProgramArguments {
        arguments: vec![Felt252::from(100u64), Felt252::from(7u64)],
        file_arguments: None,
    };
    let args = p.read_arguments();
    assert_eq!(args.len(), 2);
    assert!(matches!(args[0], Arg::Value(v) if v == Felt252::from(100u64)));
    assert!(matches!(args[1], Arg::Value(v) if v == Felt252::from(7u64)));
}

#[test]
fn file_arguments_win_over_inline() {
    let p = ProgramArguments {
        arguments: vec![Felt252::from(1u64)],
        file_arguments: Some(vec![Felt252::from(8u64), Felt252::from(9u64)]),
    };
    let args = p.read_arguments();
    assert_eq!(args.len(), 2);
    assert!(matches!(args[0], Arg::Value(v) if v == Felt252::from(8u64)));
}

#[test]
fn user_args_are_boxed_as_one_array() {
    let boxed = boxed_user_args(vec![Arg::Value(Felt252::from(100u64))]);
    assert_eq!(boxed.len(), 1);
    assert_eq!(boxed[0].len(), 1);
    match &boxed[0][0] {
        Arg::Array(inner) => {
            assert_eq!(inner.len(), 1);
            assert!(matches!(inner[0], Arg::Value(v) if v == Felt252::from(100u64)));
        }
        Arg::Value(_) => panic!("expected the boxed array"),
    }
}

#[test]
fn prepare_prover_input_selects_variant_and_adapts() {
    let run = RawRunResult {
        trace: vec![RelocatedTraceEntry { ap: 1, fp: 1, pc: 0 }],
        memory: vec![Some(Felt252::from(4u64)), Some(Felt252::from(5u64))],
    };
    let pubs: Vec<u64> = vec![0, 1];
    let builtins = vec![BuiltinId::Pedersen];
    let segments = vec![SegmentRecord {
        builtin: BuiltinId::Pedersen,
        addresses: MemorySegmentAddresses {
            begin_addr: 0,
            stop_ptr: 1,
        },
    }];
    let (pi, variant) = prepare_prover_input(run, &pubs, segments, &builtins).unwrap();
    assert_eq!(variant, PreProcessedTraceVariant::Canonical);
    assert_eq!(pi.variant, PreProcessedTraceVariant::Canonical);
    assert!(pi.context.pedersen);
    assert_eq!(pi.public_memory_addresses, vec![0u32, 1]);
    assert_eq!(pi.builtin_summary, vec![(BuiltinId::Pedersen, 1)]);
}

#[test]
fn prepare_prover_input_without_builtins_uses_plain_setup() {
    let run = RawRunResult {
        trace: vec![RelocatedTraceEntry { ap: 0, fp: 0, pc: 0 }],
        memory: vec![Some(Felt252::from(4u64))],
    };
    let pubs: Vec<u64> = vec![0];
    let (pi, variant) = prepare_prover_input(run, &pubs, vec![], &vec![]).unwrap();
    assert_eq!(variant, PreProcessedTraceVariant::CanonicalWithoutPedersen);
    assert_eq!(pi.trace.len(), 1);
    assert_eq!(pi.memory.len(), 1);
}
