//! The executable model and the loader: selecting an entry point of the
//! requested kind and deriving the VM-ready program from it.

use vstd::prelude::*;
use crate::builtins::BuiltinId;
use crate::errors::LoadError;

verus! {

/// Whether an entry point is self-contained and proof-oriented, or invoked by
/// a wrapping loader program.
#[derive(Clone, Copy, Debug, PartialEq, Eq, Structural)]
pub enum EntryPointKind {
    Standalone,
    Bootloader,
}

/// One entry point of an executable: its kind, its code offset, and the
/// builtins it declares.
pub struct EntryPoint {
    pub kind: EntryPointKind,
    pub offset: usize,
    pub builtins: Vec<BuiltinId>,
}

/// An immutable description of a compiled program: bytecode words, a mapping
/// from code offset to hint slot (the hint descriptors themselves are opaque
/// VM-side annotations, kept by the caller under the same slots), and the
/// entry points.
pub struct Executable {
    pub bytecode: Vec<cairo_vm::Felt252>,
    pub hints: Vec<(u64, u64)>,
    pub entrypoints: Vec<EntryPoint>,
}

/// The VM-ready form of one executable entry point.
pub struct Program {
    pub builtins: Vec<BuiltinId>,
    pub bytecode: Vec<cairo_vm::Felt252>,
    pub start: usize,
    pub end: usize,
    pub hints: Vec<(u64, u64)>,
}

impl Executable {
    /// Selects the first entry point of the requested kind, or fails with
    /// `NoMatchingEntryPoint` when none exists.
    pub fn find_entry_point(&self, kind: EntryPointKind) -> (r: Result<usize, LoadError>)
        ensures
            match r {
                Ok(i) => 0 <= i < self.entrypoints@.len()
                    && self.entrypoints@[i as int].kind == kind
                    && forall|j: int| 0 <= j < i ==> self.entrypoints@[j].kind != kind,
                Err(e) => e == LoadError::NoMatchingEntryPoint
                    && forall|j: int|
                        0 <= j < self.entrypoints@.len() ==> self.entrypoints@[j].kind != kind,
            },
    {
        let mut i: usize = 0;
        while i < self.entrypoints.len()
            invariant
                i <= self.entrypoints@.len(),
                forall|j: int| 0 <= j < i ==> self.entrypoints@[j].kind != kind,
            decreases self.entrypoints@.len() - i,
        {
            if self.entrypoints[i].kind == kind {
                return Ok(i);
            }
            i = i + 1;
        }
        Err(LoadError::NoMatchingEntryPoint)
    }
}

/// Derives the VM-ready program from an executable and one of its entry
/// points: execution starts at the entry point's offset and ends four words
/// later (the fixed size of its closing frame); bytecode, hint map, and the
/// declared builtins pass through unchanged.
pub fn derive_program(e: Executable, idx: usize) -> (p: Program)
    requires
        idx < e.entrypoints@.len(),
        e.entrypoints@[idx as int].offset + 4 <= usize::MAX,
    ensures
        p.builtins == e.entrypoints@[idx as int].builtins,
        p.bytecode == e.bytecode,
        p.start == e.entrypoints@[idx as int].offset,
        p.end == e.entrypoints@[idx as int].offset + 4,
        p.hints == e.hints,
{
    let Executable { bytecode, hints, mut entrypoints } = e;
    let ep = entrypoints.remove(idx);
    Program {
        builtins: ep.builtins,
        bytecode,
        start: ep.offset,
        end: ep.offset + 4,
        hints,
    }
}

} // verus!
