//! Pure bit-packing of the fixed-width comparison-with-immediate instruction
//! from a (register, immediate) operand pair, and the matching field decoders.

use vstd::prelude::*;

use crate::PatchError;

verus! {

/// The condition field "always" in the top four bits of an instruction word.
pub const CONDITION_ALWAYS_BITS: u32 = 0xE000_0000;

/// The opcode bits of the compare-with-immediate instruction form.
pub const COMPARE_IMMEDIATE_BASE_BITS: u32 = 0x0350_0000;

/// Number of registers addressable by the four-bit register field.
pub const REGISTER_LIMIT: u32 = 16;

/// First value that no longer fits the twelve-bit immediate field.
pub const IMMEDIATE_LIMIT: u32 = 4096;

/// The word that compares `register` with `immediate`: the condition and
/// opcode fields, the register in bits 16..20, the immediate in bits 0..12.
pub open spec fn cmp_imm_word(register: u32, immediate: u32) -> u32 {
    CONDITION_ALWAYS_BITS | COMPARE_IMMEDIATE_BASE_BITS | (register << 16) | immediate
}

/// Packs a comparison-with-immediate instruction word, or reports
/// `EncodingOverflow` when either operand exceeds its declared field width.
pub fn encode_compare_immediate(register: u32, immediate: u32) -> (r: Result<u32, PatchError>)
    ensures
        register < REGISTER_LIMIT && immediate < IMMEDIATE_LIMIT ==> r == Ok::<u32, PatchError>(
            cmp_imm_word(register, immediate),
        ),
        !(register < REGISTER_LIMIT && immediate < IMMEDIATE_LIMIT) ==> r == Err::<
            u32,
            PatchError,
        >(PatchError::EncodingOverflow),
{
    if register < REGISTER_LIMIT && immediate < IMMEDIATE_LIMIT {
        Ok(CONDITION_ALWAYS_BITS | COMPARE_IMMEDIATE_BASE_BITS | (register << 16u32) | immediate)
    } else {
        Err(PatchError::EncodingOverflow)
    }
}

/// Reads the register field (bits 16..20) back out of an instruction word.
pub fn decode_compare_register(word: u32) -> (r: u32)
    ensures
        r == (word >> 16) & 0xF,
{
    (word >> 16u32) & 0xF
}

/// Reads the immediate field (bits 0..12) back out of an instruction word.
pub fn decode_compare_immediate(word: u32) -> (r: u32)
    ensures
        r == word & 0xFFF,
{
    word & 0xFFF
}

/// Law: for every in-range operand pair, decoding the register and immediate
/// fields of the synthesized word reproduces the original operands.
pub proof fn lemma_compare_immediate_round_trip(register: u32, immediate: u32)
    requires
        register < REGISTER_LIMIT,
        immediate < IMMEDIATE_LIMIT,
    ensures
        (cmp_imm_word(register, immediate) >> 16) & 0xF == register,
        cmp_imm_word(register, immediate) & 0xFFF == immediate,
{
    assert(((0xE000_0000u32 | 0x0350_0000u32 | (register << 16u32) | immediate) >> 16u32) & 0xF
        == register) by (bit_vector)
        requires
            register < 16u32,
            immediate < 4096u32,
    ;
    assert((0xE000_0000u32 | 0x0350_0000u32 | (register << 16u32) | immediate) & 0xFFF
        == immediate) by (bit_vector)
        requires
            register < 16u32,
            immediate < 4096u32,
    ;
}

} // verus!
