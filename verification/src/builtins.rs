//! Builtin identities, the public-segment context, and the choice of the
//! preprocessed trace variant.
//!
//! The proving backend keys its public segments by a fixed positional table of
//! builtins. The index assignments are part of the external interface contract
//! and must match the backend exactly: slot 0 is the output segment, slot 1 is
//! Pedersen, and so on through slot 10. The segment arena is a VM-internal
//! builtin with no public segment of its own.

use vstd::prelude::*;

verus! {

/// Number of public memory segments the proving backend distinguishes.
pub const N_PUBLIC_SEGMENTS: usize = 11;

/// A VM-recognized builtin coprocessor.
#[derive(Clone, Copy, Debug, PartialEq, Eq, Structural)]
pub enum BuiltinId {
    Output,
    Pedersen,
    RangeCheck,
    Ecdsa,
    Bitwise,
    EcOp,
    Keccak,
    Poseidon,
    RangeCheck96,
    AddMod,
    MulMod,
    /// VM-internal; owns no public segment.
    SegmentArena,
}

/// The public-segment slot of a builtin, per the backend's positional table,
/// or `None` for the segment arena.
pub open spec fn spec_segment_slot(b: BuiltinId) -> Option<int> {
    match b {
        BuiltinId::Output => Some(0int),
        BuiltinId::Pedersen => Some(1int),
        BuiltinId::RangeCheck => Some(2int),
        BuiltinId::Ecdsa => Some(3int),
        BuiltinId::Bitwise => Some(4int),
        BuiltinId::EcOp => Some(5int),
        BuiltinId::Keccak => Some(6int),
        BuiltinId::Poseidon => Some(7int),
        BuiltinId::RangeCheck96 => Some(8int),
        BuiltinId::AddMod => Some(9int),
        BuiltinId::MulMod => Some(10int),
        BuiltinId::SegmentArena => None,
    }
}

/// The public-segment slot of a builtin, or `None` for the segment arena.
pub fn segment_slot(b: BuiltinId) -> (r: Option<usize>)
    ensures
        match r {
            Some(i) => spec_segment_slot(b) == Some(i as int) && i < N_PUBLIC_SEGMENTS,
            None => spec_segment_slot(b) is None,
        },
{
    match b {
        BuiltinId::Output => Some(0),
        BuiltinId::Pedersen => Some(1),
        BuiltinId::RangeCheck => Some(2),
        BuiltinId::Ecdsa => Some(3),
        BuiltinId::Bitwise => Some(4),
        BuiltinId::EcOp => Some(5),
        BuiltinId::Keccak => Some(6),
        BuiltinId::Poseidon => Some(7),
        BuiltinId::RangeCheck96 => Some(8),
        BuiltinId::AddMod => Some(9),
        BuiltinId::MulMod => Some(10),
        BuiltinId::SegmentArena => None,
    }
}

/// Which optional builtins are active for a run: one flag per public segment,
/// named after its builtin rather than held positionally, so a reordering of
/// the table cannot silently misindex a flag.
#[derive(Clone, Copy, Debug, PartialEq, Eq, Structural)]
pub struct PublicSegmentContext {
    pub output: bool,
    pub pedersen: bool,
    pub range_check: bool,
    pub ecdsa: bool,
    pub bitwise: bool,
    pub ec_op: bool,
    pub keccak: bool,
    pub poseidon: bool,
    pub range_check96: bool,
    pub add_mod: bool,
    pub mul_mod: bool,
}

/// The context an entry point's builtin list determines: a flag is set exactly
/// when the corresponding builtin is declared. The segment arena sets no flag.
pub open spec fn spec_context(builtins: Seq<BuiltinId>) -> PublicSegmentContext {
    PublicSegmentContext {
        output: builtins.contains(BuiltinId::Output),
        pedersen: builtins.contains(BuiltinId::Pedersen),
        range_check: builtins.contains(BuiltinId::RangeCheck),
        ecdsa: builtins.contains(BuiltinId::Ecdsa),
        bitwise: builtins.contains(BuiltinId::Bitwise),
        ec_op: builtins.contains(BuiltinId::EcOp),
        keccak: builtins.contains(BuiltinId::Keccak),
        poseidon: builtins.contains(BuiltinId::Poseidon),
        range_check96: builtins.contains(BuiltinId::RangeCheck96),
        add_mod: builtins.contains(BuiltinId::AddMod),
        mul_mod: builtins.contains(BuiltinId::MulMod),
    }
}

/// The flag of `ctx` that a builtin's slot addresses, `false` for the
/// segment arena.
pub open spec fn spec_flag_of(ctx: PublicSegmentContext, b: BuiltinId) -> bool {
    match b {
        BuiltinId::Output => ctx.output,
        BuiltinId::Pedersen => ctx.pedersen,
        BuiltinId::RangeCheck => ctx.range_check,
        BuiltinId::Ecdsa => ctx.ecdsa,
        BuiltinId::Bitwise => ctx.bitwise,
        BuiltinId::EcOp => ctx.ec_op,
        BuiltinId::Keccak => ctx.keccak,
        BuiltinId::Poseidon => ctx.poseidon,
        BuiltinId::RangeCheck96 => ctx.range_check96,
        BuiltinId::AddMod => ctx.add_mod,
        BuiltinId::MulMod => ctx.mul_mod,
        BuiltinId::SegmentArena => false,
    }
}

impl PublicSegmentContext {
    /// Computes the context from an entry point's builtin list.
    pub fn new(builtins: &Vec<BuiltinId>) -> (ctx: PublicSegmentContext)
        ensures
            ctx == spec_context(builtins@),
    {
        let mut ctx = PublicSegmentContext {
            output: false,
            pedersen: false,
            range_check: false,
            ecdsa: false,
            bitwise: false,
            ec_op: false,
            keccak: false,
            poseidon: false,
            range_check96: false,
            add_mod: false,
            mul_mod: false,
        };
        let mut i: usize = 0;
        while i < builtins.len()
            invariant
                i <= builtins@.len(),
                ctx == spec_context(builtins@.take(i as int)),
            decreases builtins@.len() - i,
        {
            proof {
                broadcast use vstd::seq_lib::lemma_seq_contains_after_push;

                assert(builtins@.take(i + 1) =~= builtins@.take(i as int).push(builtins@[i as int]));
            }
            match builtins[i] {
                BuiltinId::Output => ctx.output = true,
                BuiltinId::Pedersen => ctx.pedersen = true,
                BuiltinId::RangeCheck => ctx.range_check = true,
                BuiltinId::Ecdsa => ctx.ecdsa = true,
                BuiltinId::Bitwise => ctx.bitwise = true,
                BuiltinId::EcOp => ctx.ec_op = true,
                BuiltinId::Keccak => ctx.keccak = true,
                BuiltinId::Poseidon => ctx.poseidon = true,
                BuiltinId::RangeCheck96 => ctx.range_check96 = true,
                BuiltinId::AddMod => ctx.add_mod = true,
                BuiltinId::MulMod => ctx.mul_mod = true,
                BuiltinId::SegmentArena => {},
            }
            i = i + 1;
        }
        proof {
            assert(builtins@.take(builtins@.len() as int) =~= builtins@);
        }
        ctx
    }
}

/// A fixed auxiliary-table setup the proving backend loads.
#[derive(Clone, Copy, Debug, PartialEq, Eq, Structural)]
pub enum PreProcessedTraceVariant {
    Canonical,
    CanonicalWithoutPedersen,
}

/// The variant a context calls for: `Canonical` exactly when the Pedersen
/// flag is set.
pub open spec fn spec_select_variant(ctx: PublicSegmentContext) -> PreProcessedTraceVariant {
    if ctx.pedersen {
        PreProcessedTraceVariant::Canonical
    } else {
        PreProcessedTraceVariant::CanonicalWithoutPedersen
    }
}

/// Selects the preprocessed trace variant from the public-segment context.
/// Total and deterministic; an empty builtin list yields
/// `CanonicalWithoutPedersen`.
pub fn select_variant(ctx: &PublicSegmentContext) -> (v: PreProcessedTraceVariant)
    ensures
        v == spec_select_variant(*ctx),
        v == PreProcessedTraceVariant::Canonical <==> ctx.pedersen,
{
    if ctx.pedersen {
        PreProcessedTraceVariant::Canonical
    } else {
        PreProcessedTraceVariant::CanonicalWithoutPedersen
    }
}

/// A builtin list without Pedersen — in particular an empty one — always
/// selects `CanonicalWithoutPedersen`.
pub proof fn lemma_no_pedersen_selects_without_pedersen(builtins: Seq<BuiltinId>)
    requires
        !builtins.contains(BuiltinId::Pedersen),
    ensures
        spec_select_variant(spec_context(builtins)) == PreProcessedTraceVariant::CanonicalWithoutPedersen,
{
}

/// A builtin list that declares Pedersen always selects `Canonical`.
pub proof fn lemma_pedersen_selects_canonical(builtins: Seq<BuiltinId>)
    requires
        builtins.contains(BuiltinId::Pedersen),
    ensures
        spec_select_variant(spec_context(builtins)) == PreProcessedTraceVariant::Canonical,
{
}

} // verus!
