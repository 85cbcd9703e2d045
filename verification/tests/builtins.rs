use ursus::builtins::{
    segment_slot, select_variant, BuiltinId, PreProcessedTraceVariant, PublicSegmentContext,
};

#[test]
fn slot_table_matches_backend() {
    assert_eq!(segment_slot(BuiltinId::Output), Some(0));
    assert_eq!(segment_slot(BuiltinId::Pedersen), Some(1));
    assert_eq!(segment_slot(BuiltinId::RangeCheck), Some(2));
    assert_eq!(segment_slot(BuiltinId::Ecdsa), Some(3));
    assert_eq!(segment_slot(BuiltinId::Bitwise), Some(4));
    assert_eq!(segment_slot(BuiltinId::EcOp), Some(5));
    assert_eq!(segment_slot(BuiltinId::Keccak), Some(6));
    assert_eq!(segment_slot(BuiltinId::Poseidon), Some(7));
    assert_eq!(segment_slot(BuiltinId::RangeCheck96), Some(8));
    assert_eq!(segment_slot(BuiltinId::AddMod), Some(9));
    assert_eq!(segment_slot(BuiltinId::MulMod), Some(10));
    assert_eq!(segment_slot(BuiltinId::SegmentArena), None);
}

#[test]
fn empty_builtin_list_selects_without_pedersen() {
    let ctx = PublicSegmentContext::new(&vec![]);
    assert!(!ctx.output);
    assert!(!ctx.pedersen);
    assert_eq!(
        select_variant(&ctx),
        PreProcessedTraceVariant::CanonicalWithoutPedersen
    );
}

#[test]
fn pedersen_selects_canonical() {
    let ctx = PublicSegmentContext::new(&vec![
        BuiltinId::Output,
        BuiltinId::Pedersen,
        BuiltinId::RangeCheck,
    ]);
    assert!(ctx.output);
    assert!(ctx.pedersen);
    assert!(ctx.range_check);
    assert!(!ctx.poseidon);
    assert_eq!(select_variant(&ctx), PreProcessedTraceVariant::Canonical);
}

#[test]
fn non_pedersen_builtins_select_without_pedersen() {
    let ctx = PublicSegmentContext::new(&vec![
        BuiltinId::Output,
        BuiltinId::RangeCheck,
        BuiltinId::Poseidon,
        BuiltinId::SegmentArena,
    ]);
    assert!(ctx.output && ctx.range_check && ctx.poseidon);
    assert!(!ctx.pedersen);
    assert_eq!(
        select_variant(&ctx),
        PreProcessedTraceVariant::CanonicalWithoutPedersen
    );
}

#[test]
fn segment_arena_sets_no_flag() {
    let ctx = PublicSegmentContext::new(&vec![BuiltinId::SegmentArena]);
    let empty = PublicSegmentContext::new(&vec![]);
    assert_eq!(ctx, empty);
}
