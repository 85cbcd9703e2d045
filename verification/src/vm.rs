//! Trusted boundary to the virtual machine's field-element type.
//!
//! The VM hands back memory as 252-bit field elements. The library carries
//! them through opaquely and relies on the VM crate for exactly one fact
//! about each value: its canonical little-endian byte form.

use vstd::prelude::*;

verus! {

#[verifier::external_type_specification]
#[verifier::external_body]
pub struct ExFelt(cairo_vm::Felt252);

/// The canonical little-endian 32-byte representation of a field element.
/// A function of the value alone: two equal field elements have equal byte
/// forms, in every process and on every machine.
pub uninterp spec fn felt_le_bytes(f: cairo_vm::Felt252) -> Seq<u8>;

/// Relies on cairo_vm::Felt252::to_bytes_le (starknet_types_core::felt::Felt):
/// the canonical little-endian byte representation, 32 bytes.
pub assume_specification[ cairo_vm::Felt252::to_bytes_le ](f: &cairo_vm::Felt252) -> (r: [u8; 32])
    ensures
        r@ == felt_le_bytes(*f),
;

/// Relies on the derived Clone of cairo_vm::Felt252, a Copy type: the clone
/// is the same value.
pub assume_specification[ <cairo_vm::Felt252 as Clone>::clone ](f: &cairo_vm::Felt252) -> (r: cairo_vm::Felt252)
    ensures
        r == *f,
;

} // verus!
