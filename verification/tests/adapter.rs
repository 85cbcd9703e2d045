use cairo_vm::Felt252;
use ursus::adapter::{
    adapt, convert_public_addresses, encode_memory, MemorySegmentAddresses, RawRunResult,
    RelocatedTraceEntry, SegmentRecord,
};
use ursus::builtins::{BuiltinId, PreProcessedTraceVariant, PublicSegmentContext};
use ursus::errors::{AdaptError, Inconsistency};

fn entry(ap: u64, fp: u64, pc: u64) -> RelocatedTraceEntry {
    RelocatedTraceEntry { ap, fp, pc }
}

fn seg(builtin: BuiltinId, begin_addr: u64, stop_ptr: u64) -> SegmentRecord {
    SegmentRecord {
        builtin,
        addresses: MemorySegmentAddresses {
            begin_addr,
            stop_ptr,
        },
    }
}

/// Four backed cells at addresses 0..4.
fn small_memory() -> Vec<Option<Felt252>> {
    vec![
        Some(Felt252::from(7u64)),
        Some(Felt252::from(100u64)),
        Some(Felt252::from(0u64)),
        Some(Felt252::from(5u64)),
    ]
}

#[test]
fn encode_memory_skips_holes_and_keeps_order() {
    let memory = vec![
        Some(Felt252::from(100u64)),
        None,
        Some(Felt252::from(2u64)),
        None,
    ];
    let table = encode_memory(&memory).unwrap();
    assert_eq!(table.len(), 2);
    assert_eq!(table[0].address, 0);
    assert_eq!(table[0].value, [100, 0, 0, 0, 0, 0, 0, 0]);
    assert_eq!(table[1].address, 2);
    assert_eq!(table[1].value, [2, 0, 0, 0, 0, 0, 0, 0]);
}

#[test]
fn encode_memory_re_encodes_wide_values_exactly() {
    // 0x1122334455667788 little-endian: low word 0x55667788, high word 0x11223344.
    let memory = vec![Some(Felt252::from(0x1122334455667788u64))];
    let table = encode_memory(&memory).unwrap();
    assert_eq!(table[0].value, [0x55667788, 0x11223344, 0, 0, 0, 0, 0, 0]);

    // A value above 64 bits still loses nothing: 2^200 sets bit 8 of word 6.
    let memory = vec![Some(Felt252::from(2u64).pow(200u32))];
    let table = encode_memory(&memory).unwrap();
    assert_eq!(table[0].value, [0, 0, 0, 0, 0, 0, 0x100, 0]);
}

#[test]
fn encode_memory_handles_field_maximum() {
    // The field's largest value, 2^251 + 17 * 2^192: only the two top words
    // are set in the little-endian decomposition.
    let max = Felt252::from_hex(
        "0x800000000000011000000000000000000000000000000000000000000000000",
    )
    .unwrap();
    let table = encode_memory(&vec![Some(max)]).unwrap();
    assert_eq!(table[0].value, [0, 0, 0, 0, 0, 0, 0x11, 0x08000000]);
}

#[test]
fn words_from_le_bytes_formula() {
    let mut bytes = [0u8; 32];
    for (i, b) in bytes.iter_mut().enumerate() {
        *b = i as u8;
    }
    let words = ursus::felt::words_from_le_bytes(&bytes);
    for (k, w) in words.iter().enumerate() {
        let base = (4 * k) as u32;
        let expected =
            base + (base + 1) * 0x100 + (base + 2) * 0x1_0000 + (base + 3) * 0x100_0000;
        assert_eq!(*w, expected);
    }
}

#[test]
fn convert_public_addresses_narrows_verbatim() {
    let pubs: Vec<u64> = vec![0, 1, 4294967295];
    assert_eq!(convert_public_addresses(&pubs).unwrap(), vec![0u32, 1, 4294967295]);

    let too_big: Vec<u64> = vec![1, 4294967296];
    assert_eq!(
        convert_public_addresses(&too_big),
        Err(AdaptError::AddressOutOfRange {
            address: 4294967296
        })
    );
}

#[test]
fn adapt_consistent_run_succeeds() {
    let run = RawRunResult {
        trace: vec![entry(1, 2, 0), entry(3, 2, 1)],
        memory: small_memory(),
    };
    let pubs: Vec<u64> = vec![0, 1];
    let ctx = PublicSegmentContext::new(&vec![BuiltinId::Output]);
    let segments = vec![seg(BuiltinId::Output, 2, 3)];
    let pi = adapt(
        run,
        &pubs,
        segments,
        &ctx,
        PreProcessedTraceVariant::CanonicalWithoutPedersen,
    )
    .unwrap();
    assert_eq!(pi.trace, vec![entry(1, 2, 0), entry(3, 2, 1)]);
    assert_eq!(pi.memory.len(), 4);
    assert_eq!(pi.memory[1].address, 1);
    assert_eq!(pi.memory[1].value, [100, 0, 0, 0, 0, 0, 0, 0]);
    assert_eq!(pi.public_memory_addresses, vec![0u32, 1]);
    assert_eq!(pi.segments, vec![seg(BuiltinId::Output, 2, 3)]);
    assert_eq!(pi.variant, PreProcessedTraceVariant::CanonicalWithoutPedersen);
    assert_eq!(pi.builtin_summary, vec![(BuiltinId::Output, 1)]);
}

#[test]
fn adapt_is_deterministic() {
    let make = || {
        let run = RawRunResult {
            trace: vec![entry(1, 2, 0)],
            memory: small_memory(),
        };
        let pubs: Vec<u64> = vec![0, 3];
        let ctx = PublicSegmentContext::new(&vec![]);
        adapt(
            run,
            &pubs,
            vec![],
            &ctx,
            PreProcessedTraceVariant::CanonicalWithoutPedersen,
        )
        .unwrap()
    };
    let a = make();
    let b = make();
    assert_eq!(a.trace, b.trace);
    assert_eq!(a.memory, b.memory);
    assert_eq!(a.public_memory_addresses, b.public_memory_addresses);
    assert_eq!(a.segments, b.segments);
    assert_eq!(a.context, b.context);
    assert_eq!(a.variant, b.variant);
    assert_eq!(a.builtin_summary, b.builtin_summary);
}

#[test]
fn adapt_rejects_trace_referencing_hole() {
    // Address 1 is a hole, yet the first trace entry's frame pointer names it.
    let run = RawRunResult {
        trace: vec![entry(0, 1, 2)],
        memory: vec![
            Some(Felt252::from(7u64)),
            None,
            Some(Felt252::from(9u64)),
        ],
    };
    let pubs: Vec<u64> = vec![0];
    let ctx = PublicSegmentContext::new(&vec![]);
    let r = adapt(
        run,
        &pubs,
        vec![],
        &ctx,
        PreProcessedTraceVariant::CanonicalWithoutPedersen,
    );
    assert_eq!(r.err(), Some(AdaptError::MemoryHoleReferenced { address: 1 }));
}

#[test]
fn adapt_rejects_trace_address_beyond_backend_range() {
    let run = RawRunResult {
        trace: vec![entry(4294967296, 0, 0)],
        memory: small_memory(),
    };
    let pubs: Vec<u64> = vec![];
    let ctx = PublicSegmentContext::new(&vec![]);
    let r = adapt(
        run,
        &pubs,
        vec![],
        &ctx,
        PreProcessedTraceVariant::CanonicalWithoutPedersen,
    );
    assert_eq!(
        r.err(),
        Some(AdaptError::AddressOutOfRange {
            address: 4294967296
        })
    );
}

#[test]
fn adapt_rejects_dangling_public_address() {
    let run = RawRunResult {
        trace: vec![entry(0, 0, 0)],
        memory: small_memory(),
    };
    let pubs: Vec<u64> = vec![0, 9];
    let ctx = PublicSegmentContext::new(&vec![]);
    let r = adapt(
        run,
        &pubs,
        vec![],
        &ctx,
        PreProcessedTraceVariant::CanonicalWithoutPedersen,
    );
    assert_eq!(
        r.err(),
        Some(AdaptError::InconsistentAdaptation {
            violation: Inconsistency::DanglingPublicAddress { address: 9 }
        })
    );
}

#[test]
fn adapt_rejects_variant_mismatch() {
    let run = RawRunResult {
        trace: vec![entry(0, 0, 0)],
        memory: small_memory(),
    };
    let pubs: Vec<u64> = vec![];
    let ctx = PublicSegmentContext::new(&vec![BuiltinId::Pedersen]);
    let r = adapt(
        run,
        &pubs,
        vec![seg(BuiltinId::Pedersen, 0, 0)],
        &ctx,
        PreProcessedTraceVariant::CanonicalWithoutPedersen,
    );
    assert_eq!(
        r.err(),
        Some(AdaptError::InconsistentAdaptation {
            violation: Inconsistency::VariantMismatch
        })
    );
}

#[test]
fn adapt_rejects_missing_segment_record() {
    let run = RawRunResult {
        trace: vec![entry(0, 0, 0)],
        memory: small_memory(),
    };
    let pubs: Vec<u64> = vec![];
    let ctx = PublicSegmentContext::new(&vec![BuiltinId::Pedersen]);
    let r = adapt(
        run,
        &pubs,
        vec![],
        &ctx,
        PreProcessedTraceVariant::Canonical,
    );
    assert_eq!(
        r.err(),
        Some(AdaptError::InconsistentAdaptation {
            violation: Inconsistency::MissingSegment {
                builtin: BuiltinId::Pedersen
            }
        })
    );
}

#[test]
fn adapt_rejects_duplicate_and_inverted_segments() {
    let run = RawRunResult {
        trace: vec![],
        memory: vec![],
    };
    let pubs: Vec<u64> = vec![];
    let ctx = PublicSegmentContext::new(&vec![]);

    let r = adapt(
        RawRunResult {
            trace: vec![],
            memory: vec![],
        },
        &pubs,
        vec![seg(BuiltinId::Output, 0, 1), seg(BuiltinId::Output, 2, 3)],
        &ctx,
        PreProcessedTraceVariant::CanonicalWithoutPedersen,
    );
    assert_eq!(
        r.err(),
        Some(AdaptError::InconsistentAdaptation {
            violation: Inconsistency::DuplicateSegment {
                builtin: BuiltinId::Output
            }
        })
    );

    let r = adapt(
        run,
        &pubs,
        vec![seg(BuiltinId::Output, 5, 3)],
        &ctx,
        PreProcessedTraceVariant::CanonicalWithoutPedersen,
    );
    assert_eq!(
        r.err(),
        Some(AdaptError::InconsistentAdaptation {
            violation: Inconsistency::SegmentBoundsInverted {
                builtin: BuiltinId::Output
            }
        })
    );
}
