//! The trace/memory relocator-classifier and the input adapter.
//!
//! The VM reports a relocated trace, a sparse relocated memory image, the
//! public-memory addresses, and per-builtin segment ranges. This module
//! re-projects that output into the form the proving backend consumes: a
//! trace in unchanged execution order, a flat memory table of eight-word
//! values, 32-bit public addresses, and validated segment records. It is a
//! pure re-projection — values are taken as already correct from the VM —
//! and the single choke point where an inconsistent run is caught before
//! proving time is spent on it.

use vstd::prelude::*;
use crate::builtins::{BuiltinId, PreProcessedTraceVariant, PublicSegmentContext, spec_flag_of};
use crate::errors::{AdaptError, Inconsistency};
use crate::felt::{le_words, words_from_le_bytes};
use crate::vm::felt_le_bytes;

verus! {

/// One VM step after relocation: three absolute addresses.
#[derive(Clone, Copy, Debug, PartialEq, Eq, Structural)]
pub struct RelocatedTraceEntry {
    pub ap: u64,
    pub fp: u64,
    pub pc: u64,
}

/// One relocated memory cell: an absolute address and a 252-bit field value
/// stored as eight little-endian 32-bit words.
#[derive(Clone, Copy, Debug, PartialEq, Eq)]
pub struct MemoryEntry {
    pub address: u64,
    pub value: [u32; 8],
}

/// The contiguous memory region a builtin occupies.
#[derive(Clone, Copy, Debug, PartialEq, Eq, Structural)]
pub struct MemorySegmentAddresses {
    pub begin_addr: u64,
    pub stop_ptr: u64,
}

/// The segment record of one builtin.
#[derive(Clone, Copy, Debug, PartialEq, Eq, Structural)]
pub struct SegmentRecord {
    pub builtin: BuiltinId,
    pub addresses: MemorySegmentAddresses,
}

/// VM output for one run: the relocated trace in execution order, and the
/// relocated memory image indexed by address — a `None` cell is a hole, an
/// address that never existed during the run.
pub struct RawRunResult {
    pub trace: Vec<RelocatedTraceEntry>,
    pub memory: Vec<Option<cairo_vm::Felt252>>,
}

/// The single aggregate structure the proving backend consumes.
pub struct ProverInput {
    pub trace: Vec<RelocatedTraceEntry>,
    pub memory: Vec<MemoryEntry>,
    pub public_memory_addresses: Vec<u32>,
    pub segments: Vec<SegmentRecord>,
    pub context: PublicSegmentContext,
    pub variant: PreProcessedTraceVariant,
    /// Diagnostic summary: the occupied length of each builtin's segment.
    pub builtin_summary: Vec<(BuiltinId, u64)>,
}

/// An address resolves when the memory image backs it with a value.
pub open spec fn resolves(m: Seq<Option<cairo_vm::Felt252>>, a: u64) -> bool {
    a < m.len() && m[a as int] is Some
}

/// The value of a backed memory cell, as eight little-endian 32-bit words.
pub open spec fn cell_words(m: Seq<Option<cairo_vm::Felt252>>, a: int) -> Seq<u32>
    recommends
        0 <= a < m.len(),
        m[a] is Some,
{
    match m[a] {
        Some(f) => le_words(felt_le_bytes(f)),
        None => Seq::empty(),
    }
}

/// The addresses of the memory table a memory image determines, in
/// increasing order: every backed address, each exactly once.
pub open spec fn spec_mem_addresses(m: Seq<Option<cairo_vm::Felt252>>) -> Seq<u64>
    decreases m.len(),
{
    if m.len() == 0 {
        Seq::empty()
    } else {
        spec_mem_addresses(m.drop_last()) + (match m.last() {
            Some(_) => seq![(m.len() - 1) as u64],
            None => Seq::empty(),
        })
    }
}

/// The memory table's address list holds exactly the backed addresses: an
/// address appears in it if and only if the image backs it with a value.
pub proof fn lemma_mem_addresses_complete(m: Seq<Option<cairo_vm::Felt252>>, a: u64)
    requires
        m.len() <= u64::MAX + 1,
    ensures
        spec_mem_addresses(m).contains(a) <==> resolves(m, a),
    decreases m.len(),
{
    if m.len() == 0 {
    } else {
        let prefix = m.drop_last();
        lemma_mem_addresses_complete(prefix, a);
        let head = spec_mem_addresses(prefix);
        let s = spec_mem_addresses(m);
        match m.last() {
            Some(_) => {
                assert(s == head + seq![(m.len() - 1) as u64]);
                assert(s[s.len() - 1] == (m.len() - 1) as u64);
                if resolves(m, a) {
                    if a == m.len() - 1 {
                        assert(s.contains(a));
                    } else {
                        assert(resolves(prefix, a));
                        let k = choose|k: int| 0 <= k < head.len() && head[k] == a;
                        assert(s[k] == a);
                    }
                }
                if s.contains(a) {
                    let k = choose|k: int| 0 <= k < s.len() && s[k] == a;
                    if k < head.len() {
                        assert(head[k] == a);
                    } else {
                        assert(a == (m.len() - 1) as u64);
                    }
                }
            },
            None => {
                assert(s =~= head);
                if resolves(m, a) {
                    assert(a != m.len() - 1);
                    assert(resolves(prefix, a));
                }
                if resolves(prefix, a) {
                    assert(resolves(m, a));
                }
            },
        }
    }
}

/// The memory table's addresses are strictly increasing: every backed
/// address appears exactly once, so the table aliases no address.
pub proof fn lemma_mem_addresses_strictly_increasing(m: Seq<Option<cairo_vm::Felt252>>)
    requires
        m.len() <= u64::MAX + 1,
    ensures
        forall|i: int, j: int|
            0 <= i < j < spec_mem_addresses(m).len() ==> #[trigger] spec_mem_addresses(m)[i]
                < #[trigger] spec_mem_addresses(m)[j],
        forall|k: int|
            0 <= k < spec_mem_addresses(m).len() ==> #[trigger] spec_mem_addresses(m)[k] < m.len(),
    decreases m.len(),
{
    if m.len() == 0 {
    } else {
        let prefix = m.drop_last();
        lemma_mem_addresses_strictly_increasing(prefix);
        let head = spec_mem_addresses(prefix);
        let s = spec_mem_addresses(m);
        match m.last() {
            Some(_) => {
                assert(s == head + seq![(m.len() - 1) as u64]);
                assert forall|i: int, j: int| 0 <= i < j < s.len() implies s[i] < s[j] by {
                    if j < head.len() {
                        assert(s[i] == head[i] && s[j] == head[j]);
                    } else {
                        assert(s[j] == (m.len() - 1) as u64);
                        assert(s[i] == head[i]);
                        assert(head[i] < prefix.len());
                    }
                }
            },
            None => {
                assert(s =~= head);
            },
        }
    }
}

/// The cross-component invariant of the prover input, as a theorem: on an
/// adaptable run, every address a trace entry references and every
/// public-memory address has a corresponding memory-table entry — a dangling
/// reference can never survive adaptation.
pub proof fn lemma_prover_input_memory_complete(
    run_trace: Seq<RelocatedTraceEntry>,
    run_memory: Seq<Option<cairo_vm::Felt252>>,
    pubs: Seq<u64>,
    segs: Seq<SegmentRecord>,
    ctx: PublicSegmentContext,
    variant: PreProcessedTraceVariant,
    pi: ProverInput,
    a: u64,
)
    requires
        run_memory.len() <= u64::MAX + 1,
        prover_input_matches(run_trace, run_memory, pubs, segs, ctx, variant, pi),
        trace_resolved(run_trace, run_memory),
        pubs_resolved(pubs, run_memory),
        trace_refs(run_trace, a) || pubs.contains(a),
    ensures
        exists|k: int| 0 <= k < pi.memory@.len() && (#[trigger] pi.memory@[k]).address == a,
{
    assert(resolves(run_memory, a)) by {
        if trace_refs(run_trace, a) {
            let k = choose|k: int|
                0 <= k < run_trace.len() && (#[trigger] run_trace[k].ap == a || run_trace[k].fp
                    == a || run_trace[k].pc == a);
            assert(entry_resolved(run_memory, run_trace[k]));
        }
    }
    lemma_mem_addresses_complete(run_memory, a);
    let addresses = pi.memory@.map_values(|e: MemoryEntry| e.address);
    let k = choose|k: int| 0 <= k < addresses.len() && addresses[k] == a;
    assert(pi.memory@[k].address == a);
}

/// A memory-table entry is faithful to the image: its address is backed and
/// its words re-encode the cell's canonical byte form.
pub open spec fn mem_entry_ok(m: Seq<Option<cairo_vm::Felt252>>, e: MemoryEntry) -> bool {
    &&& e.address < m.len()
    &&& m[e.address as int] is Some
    &&& e.value@ == cell_words(m, e.address as int)
}

/// All addresses of a memory image fit the backend's 32-bit address space:
/// no backed cell lies above `u32::MAX`.
pub open spec fn memory_in_range(m: Seq<Option<cairo_vm::Felt252>>) -> bool {
    forall|a: int| 0 <= a < m.len() && a > u32::MAX ==> m[a] is None
}

/// Builds the flat memory table: one entry per backed address, in increasing
/// address order, each value re-encoded as eight 32-bit words from the
/// canonical little-endian byte form of the field element — no truncation,
/// no reordering. Fails with `AddressOutOfRange` when a backed address
/// exceeds the backend's 32-bit address space.
pub fn encode_memory(m: &Vec<Option<cairo_vm::Felt252>>) -> (r: Result<
    Vec<MemoryEntry>,
    AdaptError,
>)
    ensures
        r is Ok <==> memory_in_range(m@),
        match r {
            Ok(table) => {
                &&& table@.map_values(|e: MemoryEntry| e.address) == spec_mem_addresses(m@)
                &&& forall|k: int| 0 <= k < table@.len() ==> mem_entry_ok(m@, #[trigger] table@[k])
            },
            Err(e) => {
                &&& e matches AdaptError::AddressOutOfRange { address }
                &&& match e {
                    AdaptError::AddressOutOfRange { address } => address > u32::MAX && resolves(
                        m@,
                        address,
                    ),
                    _ => false,
                }
            },
        },
{
    let mut table: Vec<MemoryEntry> = Vec::new();
    let mut i: usize = 0;
    while i < m.len()
        invariant
            i <= m@.len(),
            table@.map_values(|e: MemoryEntry| e.address) == spec_mem_addresses(m@.take(i as int)),
            forall|k: int| 0 <= k < table@.len() ==> mem_entry_ok(m@, #[trigger] table@[k]),
            forall|a: int| 0 <= a < i && a > u32::MAX ==> m@[a] is None,
        decreases m@.len() - i,
    {
        let ghost prefix = m@.take(i as int);
        proof {
            assert(m@.take(i + 1).drop_last() =~= prefix);
            assert(m@.take(i + 1).last() == m@[i as int]);
        }
        if m[i].is_some() {
            if i as u64 > u32::MAX as u64 {
                proof {
                    assert(resolves(m@, i as u64));
                }
                return Err(AdaptError::AddressOutOfRange { address: i as u64 });
            }
            let bytes = match &m[i] {
                Some(f) => f.to_bytes_le(),
                None => [0u8; 32],
            };
            let words = words_from_le_bytes(&bytes);
            let ghost old_table = table@;
            table.push(MemoryEntry { address: i as u64, value: words });
            proof {
                assert(table@.map_values(|e: MemoryEntry| e.address) =~= old_table.map_values(
                    |e: MemoryEntry| e.address,
                ).push(i as u64));
            }
        } else {
            proof {
                assert(spec_mem_addresses(m@.take(i + 1)) =~= spec_mem_addresses(prefix));
            }
        }
        i = i + 1;
    }
    proof {
        assert(m@.take(m@.len() as int) =~= m@);
    }
    Ok(table)
}

/// All three addresses of a trace entry fit the 32-bit address space.
pub open spec fn entry_in_range(e: RelocatedTraceEntry) -> bool {
    e.ap <= u32::MAX && e.fp <= u32::MAX && e.pc <= u32::MAX
}

pub open spec fn trace_in_range(t: Seq<RelocatedTraceEntry>) -> bool {
    forall|k: int| 0 <= k < t.len() ==> entry_in_range(#[trigger] t[k])
}

/// Both segment boundaries fit the 32-bit address space.
pub open spec fn segment_in_range(s: SegmentRecord) -> bool {
    s.addresses.begin_addr <= u32::MAX && s.addresses.stop_ptr <= u32::MAX
}

pub open spec fn segments_in_range(segs: Seq<SegmentRecord>) -> bool {
    forall|k: int| 0 <= k < segs.len() ==> segment_in_range(#[trigger] segs[k])
}

pub open spec fn pubs_in_range(pubs: Seq<u64>) -> bool {
    forall|k: int| 0 <= k < pubs.len() ==> #[trigger] pubs[k] <= u32::MAX
}

/// A trace entry references an address through any of its three registers.
pub open spec fn trace_refs(t: Seq<RelocatedTraceEntry>, a: u64) -> bool {
    exists|k: int|
        0 <= k < t.len() && (#[trigger] t[k].ap == a || t[k].fp == a || t[k].pc == a)
}

/// All three registers of a trace entry are backed by memory values.
pub open spec fn entry_resolved(m: Seq<Option<cairo_vm::Felt252>>, e: RelocatedTraceEntry) -> bool {
    resolves(m, e.ap) && resolves(m, e.fp) && resolves(m, e.pc)
}

/// Every address any trace entry references is backed by a memory value.
pub open spec fn trace_resolved(
    t: Seq<RelocatedTraceEntry>,
    m: Seq<Option<cairo_vm::Felt252>>,
) -> bool {
    forall|k: int| 0 <= k < t.len() ==> entry_resolved(m, #[trigger] t[k])
}

/// Every public-memory address is backed by a memory value.
pub open spec fn pubs_resolved(pubs: Seq<u64>, m: Seq<Option<cairo_vm::Felt252>>) -> bool {
    forall|k: int| 0 <= k < pubs.len() ==> resolves(m, #[trigger] pubs[k])
}

/// Two segment records name the same builtin.
pub open spec fn has_duplicate_segment(segs: Seq<SegmentRecord>) -> bool {
    exists|i: int, j: int|
        0 <= i < j < segs.len() && (#[trigger] segs[i]).builtin == (#[trigger] segs[j]).builtin
}

/// Every segment record's begin address is at most its stop pointer.
pub open spec fn segments_ordered(segs: Seq<SegmentRecord>) -> bool {
    forall|k: int|
        0 <= k < segs.len() ==> (#[trigger] segs[k]).addresses.begin_addr
            <= segs[k].addresses.stop_ptr
}

/// Some segment record names the builtin.
pub open spec fn has_segment_for(segs: Seq<SegmentRecord>, b: BuiltinId) -> bool {
    exists|k: int| 0 <= k < segs.len() && (#[trigger] segs[k]).builtin == b
}

/// Every builtin the context marks active has a segment record.
pub open spec fn segments_cover(segs: Seq<SegmentRecord>, ctx: PublicSegmentContext) -> bool {
    forall|b: BuiltinId| spec_flag_of(ctx, b) ==> has_segment_for(segs, b)
}

/// The variant is admissible for the context: a Pedersen-using run must not
/// select the setup that omits Pedersen.
pub open spec fn variant_consistent(
    ctx: PublicSegmentContext,
    variant: PreProcessedTraceVariant,
) -> bool {
    !(ctx.pedersen && variant == PreProcessedTraceVariant::CanonicalWithoutPedersen)
}

/// Returns the builtin of some pair of duplicate records, if any.
fn find_duplicate(segs: &Vec<SegmentRecord>) -> (r: Option<BuiltinId>)
    ensures
        r is Some <==> has_duplicate_segment(segs@),
        match r {
            Some(b) => exists|i: int, j: int|
                0 <= i < j < segs@.len() && (#[trigger] segs@[i]).builtin == b && (
                #[trigger] segs@[j]).builtin == b,
            None => true,
        },
{
    let mut i: usize = 0;
    while i < segs.len()
        invariant
            i <= segs@.len(),
            forall|p: int, q: int|
                0 <= p < q < segs@.len() && p < i ==> (#[trigger] segs@[p]).builtin != (
                #[trigger] segs@[q]).builtin,
        decreases segs@.len() - i,
    {
        let mut j: usize = i + 1;
        while j < segs.len()
            invariant
                i < j <= segs@.len(),
                i < segs@.len(),
                forall|q: int| i < q < j ==> (#[trigger] segs@[q]).builtin != segs@[i as int].builtin,
            decreases segs@.len() - j,
        {
            if segs[j].builtin == segs[i].builtin {
                return Some(segs[i].builtin);
            }
            j = j + 1;
        }
        i = i + 1;
    }
    None
}

/// Returns the builtin of some record whose begin address exceeds its stop
/// pointer, if any.
fn find_inverted(segs: &Vec<SegmentRecord>) -> (r: Option<BuiltinId>)
    ensures
        r is None <==> segments_ordered(segs@),
        match r {
            Some(b) => exists|k: int|
                0 <= k < segs@.len() && (#[trigger] segs@[k]).builtin == b
                    && segs@[k].addresses.begin_addr > segs@[k].addresses.stop_ptr,
            None => true,
        },
{
    let mut i: usize = 0;
    while i < segs.len()
        invariant
            i <= segs@.len(),
            forall|k: int|
                0 <= k < i ==> (#[trigger] segs@[k]).addresses.begin_addr
                    <= segs@[k].addresses.stop_ptr,
        decreases segs@.len() - i,
    {
        if segs[i].addresses.begin_addr > segs[i].addresses.stop_ptr {
            return Some(segs[i].builtin);
        }
        i = i + 1;
    }
    None
}

/// Returns some segment boundary above the 32-bit address space, if any.
fn find_segment_out_of_range(segs: &Vec<SegmentRecord>) -> (r: Option<u64>)
    ensures
        r is None <==> segments_in_range(segs@),
        match r {
            Some(a) => a > u32::MAX && exists|k: int|
                0 <= k < segs@.len() && ((#[trigger] segs@[k]).addresses.begin_addr == a
                    || segs@[k].addresses.stop_ptr == a),
            None => true,
        },
{
    let mut i: usize = 0;
    while i < segs.len()
        invariant
            i <= segs@.len(),
            forall|k: int| 0 <= k < i ==> segment_in_range(#[trigger] segs@[k]),
        decreases segs@.len() - i,
    {
        if segs[i].addresses.begin_addr > u32::MAX as u64 {
            return Some(segs[i].addresses.begin_addr);
        }
        if segs[i].addresses.stop_ptr > u32::MAX as u64 {
            return Some(segs[i].addresses.stop_ptr);
        }
        i = i + 1;
    }
    None
}

/// Returns some trace register above the 32-bit address space, if any.
fn find_trace_out_of_range(t: &Vec<RelocatedTraceEntry>) -> (r: Option<u64>)
    ensures
        r is None <==> trace_in_range(t@),
        match r {
            Some(a) => a > u32::MAX && trace_refs(t@, a),
            None => true,
        },
{
    let mut i: usize = 0;
    while i < t.len()
        invariant
            i <= t@.len(),
            forall|k: int| 0 <= k < i ==> entry_in_range(#[trigger] t@[k]),
        decreases t@.len() - i,
    {
        let e = t[i];
        if e.ap > u32::MAX as u64 {
            return Some(e.ap);
        }
        if e.fp > u32::MAX as u64 {
            return Some(e.fp);
        }
        if e.pc > u32::MAX as u64 {
            return Some(e.pc);
        }
        i = i + 1;
    }
    None
}

/// Whether an address is backed by a memory value.
fn resolve(m: &Vec<Option<cairo_vm::Felt252>>, a: u64) -> (r: bool)
    ensures
        r == resolves(m@, a),
{
    a < m.len() as u64 && m[a as usize].is_some()
}

/// Returns some trace-referenced address with no backing value, if any.
fn find_trace_hole(t: &Vec<RelocatedTraceEntry>, m: &Vec<Option<cairo_vm::Felt252>>) -> (r: Option<
    u64,
>)
    ensures
        r is None <==> trace_resolved(t@, m@),
        match r {
            Some(a) => trace_refs(t@, a) && !resolves(m@, a),
            None => true,
        },
{
    let mut i: usize = 0;
    while i < t.len()
        invariant
            i <= t@.len(),
            forall|k: int| 0 <= k < i ==> entry_resolved(m@, #[trigger] t@[k]),
        decreases t@.len() - i,
    {
        let e = t[i];
        if !resolve(m, e.ap) {
            proof {
                assert(trace_refs(t@, e.ap)) by {
                    assert(t@[i as int].ap == e.ap);
                }
            }
            return Some(e.ap);
        }
        if !resolve(m, e.fp) {
            proof {
                assert(trace_refs(t@, e.fp)) by {
                    assert(t@[i as int].fp == e.fp);
                }
            }
            return Some(e.fp);
        }
        if !resolve(m, e.pc) {
            proof {
                assert(trace_refs(t@, e.pc)) by {
                    assert(t@[i as int].pc == e.pc);
                }
            }
            return Some(e.pc);
        }
        proof {
            assert(entry_resolved(m@, t@[i as int]));
        }
        i = i + 1;
    }
    None
}

/// Converts the public-memory addresses to the backend's 32-bit form,
/// verbatim and in order. Fails with `AddressOutOfRange` on an address the
/// 32-bit space cannot represent.
pub fn convert_public_addresses(pubs: &Vec<u64>) -> (r: Result<Vec<u32>, AdaptError>)
    ensures
        r is Ok <==> pubs_in_range(pubs@),
        match r {
            Ok(v) => v@.len() == pubs@.len() && forall|k: int|
                0 <= k < pubs@.len() ==> #[trigger] v@[k] == pubs@[k] as u32,
            Err(e) => match e {
                AdaptError::AddressOutOfRange { address } => address > u32::MAX
                    && pubs@.contains(address),
                _ => false,
            },
        },
{
    let mut out: Vec<u32> = Vec::new();
    let mut i: usize = 0;
    while i < pubs.len()
        invariant
            i <= pubs@.len(),
            out@.len() == i,
            forall|k: int| 0 <= k < i ==> #[trigger] out@[k] == pubs@[k] as u32,
            forall|k: int| 0 <= k < i ==> #[trigger] pubs@[k] <= u32::MAX,
        decreases pubs@.len() - i,
    {
        let a = pubs[i];
        if a > u32::MAX as u64 {
            proof {
                assert(pubs@[i as int] == a);
            }
            return Err(AdaptError::AddressOutOfRange { address: a });
        }
        out.push(a as u32);
        i = i + 1;
    }
    Ok(out)
}

/// Returns some public-memory address with no backing value, if any.
fn find_public_hole(pubs: &Vec<u64>, m: &Vec<Option<cairo_vm::Felt252>>) -> (r: Option<u64>)
    ensures
        r is None <==> pubs_resolved(pubs@, m@),
        match r {
            Some(a) => pubs@.contains(a) && !resolves(m@, a),
            None => true,
        },
{
    let mut i: usize = 0;
    while i < pubs.len()
        invariant
            i <= pubs@.len(),
            forall|k: int| 0 <= k < i ==> resolves(m@, #[trigger] pubs@[k]),
        decreases pubs@.len() - i,
    {
        if !resolve(m, pubs[i]) {
            return Some(pubs[i]);
        }
        i = i + 1;
    }
    None
}

/// Whether some record names the builtin.
fn has_record(segs: &Vec<SegmentRecord>, b: BuiltinId) -> (r: bool)
    ensures
        r == has_segment_for(segs@, b),
{
    let mut i: usize = 0;
    while i < segs.len()
        invariant
            i <= segs@.len(),
            forall|k: int| 0 <= k < i ==> (#[trigger] segs@[k]).builtin != b,
        decreases segs@.len() - i,
    {
        if segs[i].builtin == b {
            return true;
        }
        i = i + 1;
    }
    false
}

/// Returns some context-active builtin without a segment record, if any.
fn find_missing_segment(segs: &Vec<SegmentRecord>, ctx: &PublicSegmentContext) -> (r: Option<
    BuiltinId,
>)
    ensures
        r is None <==> segments_cover(segs@, *ctx),
        match r {
            Some(b) => spec_flag_of(*ctx, b) && !has_segment_for(segs@, b),
            None => true,
        },
{
    let all = vec![
        BuiltinId::Output,
        BuiltinId::Pedersen,
        BuiltinId::RangeCheck,
        BuiltinId::Ecdsa,
        BuiltinId::Bitwise,
        BuiltinId::EcOp,
        BuiltinId::Keccak,
        BuiltinId::Poseidon,
        BuiltinId::RangeCheck96,
        BuiltinId::AddMod,
        BuiltinId::MulMod,
    ];
    let mut i: usize = 0;
    while i < all.len()
        invariant
            i <= all@.len(),
            all@.len() == 11,
            all@ == seq![
                BuiltinId::Output,
                BuiltinId::Pedersen,
                BuiltinId::RangeCheck,
                BuiltinId::Ecdsa,
                BuiltinId::Bitwise,
                BuiltinId::EcOp,
                BuiltinId::Keccak,
                BuiltinId::Poseidon,
                BuiltinId::RangeCheck96,
                BuiltinId::AddMod,
                BuiltinId::MulMod,
            ],
            forall|k: int|
                0 <= k < i ==> (spec_flag_of(*ctx, #[trigger] all@[k]) ==> has_segment_for(
                    segs@,
                    all@[k],
                )),
        decreases all@.len() - i,
    {
        let b = all[i];
        let flagged = match b {
            BuiltinId::Output => ctx.output,
            BuiltinId::Pedersen => ctx.pedersen,
            BuiltinId::RangeCheck => ctx.range_check,
            BuiltinId::Ecdsa => ctx.ecdsa,
            BuiltinId::Bitwise => ctx.bitwise,
            BuiltinId::EcOp => ctx.ec_op,
            BuiltinId::Keccak => ctx.keccak,
            BuiltinId::Poseidon => ctx.poseidon,
            BuiltinId::RangeCheck96 => ctx.range_check96,
            BuiltinId::AddMod => ctx.add_mod,
            BuiltinId::MulMod => ctx.mul_mod,
            BuiltinId::SegmentArena => false,
        };
        if flagged && !has_record(segs, b) {
            return Some(b);
        }
        i = i + 1;
    }
    proof {
        assert forall|b: BuiltinId| spec_flag_of(*ctx, b) implies has_segment_for(segs@, b) by {
            match b {
                BuiltinId::Output => assert(all@[0] == b),
                BuiltinId::Pedersen => assert(all@[1] == b),
                BuiltinId::RangeCheck => assert(all@[2] == b),
                BuiltinId::Ecdsa => assert(all@[3] == b),
                BuiltinId::Bitwise => assert(all@[4] == b),
                BuiltinId::EcOp => assert(all@[5] == b),
                BuiltinId::Keccak => assert(all@[6] == b),
                BuiltinId::Poseidon => assert(all@[7] == b),
                BuiltinId::RangeCheck96 => assert(all@[8] == b),
                BuiltinId::AddMod => assert(all@[9] == b),
                BuiltinId::MulMod => assert(all@[10] == b),
                BuiltinId::SegmentArena => assert(!spec_flag_of(*ctx, b)),
            }
        }
    }
    None
}

/// The per-builtin occupied segment length, for diagnostics.
fn summarize_segments(segs: &Vec<SegmentRecord>) -> (r: Vec<(BuiltinId, u64)>)
    requires
        segments_ordered(segs@),
    ensures
        r@.len() == segs@.len(),
        forall|k: int|
            0 <= k < segs@.len() ==> #[trigger] r@[k] == (
                segs@[k].builtin,
                (segs@[k].addresses.stop_ptr - segs@[k].addresses.begin_addr) as u64,
            ),
{
    let mut out: Vec<(BuiltinId, u64)> = Vec::new();
    let mut i: usize = 0;
    while i < segs.len()
        invariant
            i <= segs@.len(),
            segments_ordered(segs@),
            out@.len() == i,
            forall|k: int|
                0 <= k < i ==> #[trigger] out@[k] == (
                    segs@[k].builtin,
                    (segs@[k].addresses.stop_ptr - segs@[k].addresses.begin_addr) as u64,
                ),
        decreases segs@.len() - i,
    {
        let s = segs[i];
        out.push((s.builtin, s.addresses.stop_ptr - s.addresses.begin_addr));
        i = i + 1;
    }
    out
}

/// What the adapter's result is on an adaptable run: the trace passes
/// through in execution order, the memory table re-encodes exactly the
/// backed cells in increasing address order, the public addresses narrow
/// verbatim, the segment records pass through unchanged under the given
/// context and variant, and the summary holds each segment's occupied
/// length.
pub open spec fn prover_input_matches(
    run_trace: Seq<RelocatedTraceEntry>,
    run_memory: Seq<Option<cairo_vm::Felt252>>,
    pubs: Seq<u64>,
    segs: Seq<SegmentRecord>,
    ctx: PublicSegmentContext,
    variant: PreProcessedTraceVariant,
    pi: ProverInput,
) -> bool {
    &&& pi.trace@ == run_trace
    &&& pi.memory@.map_values(|e: MemoryEntry| e.address) == spec_mem_addresses(run_memory)
    &&& forall|k: int| 0 <= k < pi.memory@.len() ==> mem_entry_ok(run_memory, #[trigger] pi.memory@[k])
    &&& pi.public_memory_addresses@.len() == pubs.len()
    &&& forall|k: int|
        0 <= k < pubs.len() ==> #[trigger] pi.public_memory_addresses@[k] == pubs[k] as u32
    &&& pi.segments@ == segs
    &&& pi.context == ctx
    &&& pi.variant == variant
    &&& pi.builtin_summary@.len() == segs.len()
    &&& forall|k: int|
        0 <= k < segs.len() ==> #[trigger] pi.builtin_summary@[k] == (
            segs[k].builtin,
            (segs[k].addresses.stop_ptr - segs[k].addresses.begin_addr) as u64,
        )
}

/// Every condition a run must meet to be adaptable.
pub open spec fn adapt_ok(
    run_trace: Seq<RelocatedTraceEntry>,
    run_memory: Seq<Option<cairo_vm::Felt252>>,
    pubs: Seq<u64>,
    segs: Seq<SegmentRecord>,
    ctx: PublicSegmentContext,
    variant: PreProcessedTraceVariant,
) -> bool {
    &&& !has_duplicate_segment(segs)
    &&& segments_ordered(segs)
    &&& variant_consistent(ctx, variant)
    &&& segments_in_range(segs)
    &&& trace_in_range(run_trace)
    &&& memory_in_range(run_memory)
    &&& pubs_in_range(pubs)
    &&& trace_resolved(run_trace, run_memory)
    &&& pubs_resolved(pubs, run_memory)
    &&& segments_cover(segs, ctx)
}

/// An address occurs somewhere in the adapter's inputs: as a segment
/// boundary, a trace register, a backed memory cell, or a public address.
pub open spec fn input_address(
    run_trace: Seq<RelocatedTraceEntry>,
    run_memory: Seq<Option<cairo_vm::Felt252>>,
    pubs: Seq<u64>,
    segs: Seq<SegmentRecord>,
    a: u64,
) -> bool {
    ||| exists|k: int|
        0 <= k < segs.len() && ((#[trigger] segs[k]).addresses.begin_addr == a
            || segs[k].addresses.stop_ptr == a)
    ||| trace_refs(run_trace, a)
    ||| resolves(run_memory, a)
    ||| pubs.contains(a)
}

/// The adapter's whole contract, as a predicate on its result: success
/// exactly on adaptable runs, the successful result a pure function of the
/// inputs, and each error only under its own condition, in the fixed check
/// order.
pub open spec fn adapt_result_matches(
    run_trace: Seq<RelocatedTraceEntry>,
    run_memory: Seq<Option<cairo_vm::Felt252>>,
    pubs: Seq<u64>,
    segs: Seq<SegmentRecord>,
    ctx: PublicSegmentContext,
    variant: PreProcessedTraceVariant,
    r: Result<ProverInput, AdaptError>,
) -> bool {
    &&& (r is Ok <==> adapt_ok(run_trace, run_memory, pubs, segs, ctx, variant))
    &&& match r {
        Ok(pi) => prover_input_matches(run_trace, run_memory, pubs, segs, ctx, variant, pi),
        Err(e) => match e {
            AdaptError::AddressOutOfRange { address } => {
                &&& !has_duplicate_segment(segs)
                &&& segments_ordered(segs)
                &&& variant_consistent(ctx, variant)
                &&& address > u32::MAX
                &&& input_address(run_trace, run_memory, pubs, segs, address)
            },
            AdaptError::MemoryHoleReferenced { address } => {
                &&& !has_duplicate_segment(segs)
                &&& segments_ordered(segs)
                &&& variant_consistent(ctx, variant)
                &&& segments_in_range(segs)
                &&& trace_in_range(run_trace)
                &&& memory_in_range(run_memory)
                &&& pubs_in_range(pubs)
                &&& trace_refs(run_trace, address)
                &&& !resolves(run_memory, address)
            },
            AdaptError::InconsistentAdaptation { violation } => match violation {
                Inconsistency::DuplicateSegment { builtin } => exists|i: int, j: int|
                    0 <= i < j < segs.len() && (#[trigger] segs[i]).builtin == builtin && (
                    #[trigger] segs[j]).builtin == builtin,
                Inconsistency::SegmentBoundsInverted { builtin } => {
                    &&& !has_duplicate_segment(segs)
                    &&& exists|k: int|
                        0 <= k < segs.len() && (#[trigger] segs[k]).builtin == builtin
                            && segs[k].addresses.begin_addr > segs[k].addresses.stop_ptr
                },
                Inconsistency::VariantMismatch => {
                    &&& !has_duplicate_segment(segs)
                    &&& segments_ordered(segs)
                    &&& !variant_consistent(ctx, variant)
                },
                Inconsistency::DanglingPublicAddress { address } => {
                    &&& trace_resolved(run_trace, run_memory)
                    &&& pubs.contains(address)
                    &&& !resolves(run_memory, address)
                },
                Inconsistency::MissingSegment { builtin } => {
                    &&& trace_resolved(run_trace, run_memory)
                    &&& pubs_resolved(pubs, run_memory)
                    &&& spec_flag_of(ctx, builtin)
                    &&& !has_segment_for(segs, builtin)
                },
            },
        },
    }
}

/// Merges the relocated run output, the public addresses, the segment
/// records, and the chosen context and variant into the one structure the
/// proving backend consumes, after validating every cross-component
/// invariant. The checks run in a fixed order — duplicate segments, inverted
/// segment bounds, variant consistency, 32-bit address range (segments,
/// trace, memory, public addresses), trace-referenced holes, dangling public
/// addresses, missing segment records — and the first failing class decides
/// the error. On success the result is a pure function of the inputs: the
/// trace passes through in execution order, the memory table re-encodes
/// every backed cell, the public addresses narrow verbatim, and the segment
/// records pass through unchanged.
pub fn adapt(
    run: RawRunResult,
    public_addresses: &Vec<u64>,
    segments: Vec<SegmentRecord>,
    ctx: &PublicSegmentContext,
    variant: PreProcessedTraceVariant,
) -> (r: Result<ProverInput, AdaptError>)
    ensures
        adapt_result_matches(
            run.trace@,
            run.memory@,
            public_addresses@,
            segments@,
            *ctx,
            variant,
            r,
        ),
{
    if let Some(b) = find_duplicate(&segments) {
        return Err(
            AdaptError::InconsistentAdaptation {
                violation: Inconsistency::DuplicateSegment { builtin: b },
            },
        );
    }
    if let Some(b) = find_inverted(&segments) {
        return Err(
            AdaptError::InconsistentAdaptation {
                violation: Inconsistency::SegmentBoundsInverted { builtin: b },
            },
        );
    }
    if ctx.pedersen && matches!(variant, PreProcessedTraceVariant::CanonicalWithoutPedersen) {
        return Err(
            AdaptError::InconsistentAdaptation { violation: Inconsistency::VariantMismatch },
        );
    }
    if let Some(a) = find_segment_out_of_range(&segments) {
        return Err(AdaptError::AddressOutOfRange { address: a });
    }
    if let Some(a) = find_trace_out_of_range(&run.trace) {
        return Err(AdaptError::AddressOutOfRange { address: a });
    }
    let memory = match encode_memory(&run.memory) {
        Ok(table) => table,
        Err(e) => {
            return Err(e);
        },
    };
    let public32 = match convert_public_addresses(public_addresses) {
        Ok(v) => v,
        Err(e) => {
            return Err(e);
        },
    };
    if let Some(a) = find_trace_hole(&run.trace, &run.memory) {
        return Err(AdaptError::MemoryHoleReferenced { address: a });
    }
    if let Some(a) = find_public_hole(public_addresses, &run.memory) {
        return Err(
            AdaptError::InconsistentAdaptation {
                violation: Inconsistency::DanglingPublicAddress { address: a },
            },
        );
    }
    if let Some(b) = find_missing_segment(&segments, ctx) {
        return Err(
            AdaptError::InconsistentAdaptation {
                violation: Inconsistency::MissingSegment { builtin: b },
            },
        );
    }
    let builtin_summary = summarize_segments(&segments);
    Ok(
        ProverInput {
            trace: run.trace,
            memory,
            public_memory_addresses: public32,
            segments,
            context: *ctx,
            variant,
            builtin_summary,
        },
    )
}

/// A run whose segments, variant, and address ranges are otherwise
/// well-formed, but where some trace-referenced address has no backing
/// memory value, never adapts: the adapter's result is the dangling-address
/// error, so such a run can never reach the proving backend.
pub proof fn lemma_dangling_address_rejected(
    run_trace: Seq<RelocatedTraceEntry>,
    run_memory: Seq<Option<cairo_vm::Felt252>>,
    pubs: Seq<u64>,
    segs: Seq<SegmentRecord>,
    ctx: PublicSegmentContext,
    variant: PreProcessedTraceVariant,
    a: u64,
    r: Result<ProverInput, AdaptError>,
)
    requires
        adapt_result_matches(run_trace, run_memory, pubs, segs, ctx, variant, r),
        !has_duplicate_segment(segs),
        segments_ordered(segs),
        variant_consistent(ctx, variant),
        segments_in_range(segs),
        trace_in_range(run_trace),
        memory_in_range(run_memory),
        pubs_in_range(pubs),
        trace_refs(run_trace, a),
        !resolves(run_memory, a),
    ensures
        r matches Err(AdaptError::MemoryHoleReferenced { address }) && trace_refs(
            run_trace,
            address,
        ) && !resolves(run_memory, address),
{
    assert(!trace_resolved(run_trace, run_memory)) by {
        let k = choose|k: int|
            0 <= k < run_trace.len() && (#[trigger] run_trace[k].ap == a || run_trace[k].fp == a
                || run_trace[k].pc == a);
        assert(!entry_resolved(run_memory, run_trace[k]));
    }
    match r {
        Ok(_) => {
            assert(false);
        },
        Err(e) => match e {
            AdaptError::AddressOutOfRange { address } => {
                assert(false);
            },
            AdaptError::MemoryHoleReferenced { address } => {},
            AdaptError::InconsistentAdaptation { violation } => {
                assert(false);
            },
        },
    }
}

/// Adaptation is a pure function of its inputs: any two prover inputs that
/// meet the adapter's contract for the same run output, public addresses,
/// segment records, context, and variant agree on every component. There is
/// no incidental nondeterminism from iteration order or anything else.
pub proof fn lemma_adapt_deterministic(
    run_trace: Seq<RelocatedTraceEntry>,
    run_memory: Seq<Option<cairo_vm::Felt252>>,
    pubs: Seq<u64>,
    segs: Seq<SegmentRecord>,
    ctx: PublicSegmentContext,
    variant: PreProcessedTraceVariant,
    pi1: ProverInput,
    pi2: ProverInput,
)
    requires
        prover_input_matches(run_trace, run_memory, pubs, segs, ctx, variant, pi1),
        prover_input_matches(run_trace, run_memory, pubs, segs, ctx, variant, pi2),
    ensures
        pi1.trace@ == pi2.trace@,
        pi1.memory@ == pi2.memory@,
        pi1.public_memory_addresses@ == pi2.public_memory_addresses@,
        pi1.segments@ == pi2.segments@,
        pi1.context == pi2.context,
        pi1.variant == pi2.variant,
        pi1.builtin_summary@ == pi2.builtin_summary@,
{
    broadcast use vstd::array::group_array_axioms;

    let a1 = pi1.memory@.map_values(|e: MemoryEntry| e.address);
    let a2 = pi2.memory@.map_values(|e: MemoryEntry| e.address);
    assert(a1.len() == pi1.memory@.len());
    assert(a2.len() == pi2.memory@.len());
    assert(pi1.memory@.len() == pi2.memory@.len());
    assert forall|k: int| 0 <= k < pi1.memory@.len() implies pi1.memory@[k] == pi2.memory@[k] by {
        assert(a1[k] == pi1.memory@[k].address);
        assert(a2[k] == pi2.memory@[k].address);
        assert(pi1.memory@[k].address == pi2.memory@[k].address);
        assert(pi1.memory@[k].value@ == pi2.memory@[k].value@);
        assert forall|i: int| 0 <= i < 8 implies pi1.memory@[k].value[i] == pi2.memory@[k].value[i]
        by {
            assert(pi1.memory@[k].value[i] == pi1.memory@[k].value@[i]);
            assert(pi2.memory@[k].value[i] == pi2.memory@[k].value@[i]);
        }
        assert(pi1.memory@[k].value =~= pi2.memory@[k].value);
    }
    assert(pi1.memory@ =~= pi2.memory@);
    assert(pi1.public_memory_addresses@ =~= pi2.public_memory_addresses@);
    assert(pi1.builtin_summary@ =~= pi2.builtin_summary@);
}

} // verus!
