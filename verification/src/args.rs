//! Program arguments: field-element values and nested arrays of them, and the
//! convention that one run's arguments model a single-argument call taking
//! one array parameter.

use vstd::prelude::*;

verus! {

/// One argument to the executable function: a scalar field element or a
/// nested array of arguments.
pub enum Arg {
    Value(cairo_vm::Felt252),
    Array(Vec<Arg>),
}

/// The two mutually exclusive argument sources: values given inline, or the
/// already-read contents of an arguments file. When a file was given, its
/// contents win.
pub struct ProgramArguments {
    /// Arguments given inline.
    pub arguments: Vec<cairo_vm::Felt252>,
    /// Arguments read from a file, when one was given.
    pub file_arguments: Option<Vec<cairo_vm::Felt252>>,
}

/// The argument list a source selection denotes: the file's contents when a
/// file was given, the inline values otherwise.
pub open spec fn spec_selected_arguments(p: ProgramArguments) -> Seq<cairo_vm::Felt252> {
    match p.file_arguments {
        Some(v) => v@,
        None => p.arguments@,
    }
}

impl ProgramArguments {
    /// Turns the selected argument source into the VM's argument list, one
    /// scalar value per field element, in order.
    pub fn read_arguments(self) -> (r: Vec<Arg>)
        ensures
            r@.len() == spec_selected_arguments(self).len(),
            forall|k: int|
                0 <= k < r@.len() ==> #[trigger] r@[k] == Arg::Value(
                    spec_selected_arguments(self)[k],
                ),
    {
        let source = match self.file_arguments {
            Some(v) => v,
            None => self.arguments,
        };
        let mut out: Vec<Arg> = Vec::new();
        let mut i: usize = 0;
        while i < source.len()
            invariant
                i <= source@.len(),
                out@.len() == i,
                forall|k: int| 0 <= k < i ==> #[trigger] out@[k] == Arg::Value(source@[k]),
            decreases source@.len() - i,
        {
            out.push(Arg::Value(source[i].clone()));
            i = i + 1;
        }
        out
    }
}

/// Boxes a run's arguments as the single array parameter the entry point
/// takes, by convention: one call, one argument, that argument the array of
/// all values.
pub fn boxed_user_args(args: Vec<Arg>) -> (r: Vec<Vec<Arg>>)
    ensures
        r@.len() == 1,
        r@[0]@.len() == 1,
        r@[0]@[0] == Arg::Array(args),
{
    let inner: Vec<Arg> = vec![Arg::Array(args)];
    let r: Vec<Vec<Arg>> = vec![inner];
    r
}

} // verus!
