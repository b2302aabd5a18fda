//! What the FIFO controller computes around each register access: the word
//! each load-modify-store writes back, the meaning of a drained word, and byte
//! counts. The accesses themselves are made by the caller, which owns the
//! connection to the hardware.
use vstd::prelude::*;
use crate::registers::{
    bit_set, with_bit, with_mode_field, Mode, EMPTY_SENTINEL, FFCR_BIT_FLUSHMAN, FFCR_BIT_STOPONFL,
    MODE_FIELD_MASK, REGISTER_OFFSET_CTL, lemma_mode_field_reads_back, lemma_with_bit,
};

verus! {

/// Control register value that enables capture.
pub const CONTROL_ENABLE: u32 = 1;

/// Control register value that disables capture.
pub const CONTROL_DISABLE: u32 = 0;

/// What a word of the read-data register means: `None` for the empty
/// sentinel, else the word itself.
pub open spec fn data_word(raw: u32) -> Option<u32> {
    if raw == EMPTY_SENTINEL {
        None
    } else {
        Some(raw)
    }
}

/// The meaning of a word read from the read-data register: `None` exactly
/// for the empty sentinel, else `Some` of the word.
pub fn decode_data_word(raw: u32) -> (r: Option<u32>)
    ensures
        r == data_word(raw),
        raw != EMPTY_SENTINEL ==> r == Some(raw),
        raw == EMPTY_SENTINEL ==> r is None,
{
    if raw == EMPTY_SENTINEL {
        None
    } else {
        Some(raw)
    }
}

/// A count of 32-bit words as a count of bytes: the size and fill-level
/// registers count words.
pub fn words_to_bytes(words: u32) -> (r: u64)
    ensures
        r == 4 * words,
{
    4 * (words as u64)
}

/// The whole word written to the control register to enable or disable capture.
pub fn control_word(enable: bool) -> (r: u32)
    ensures
        r == if enable { CONTROL_ENABLE } else { CONTROL_DISABLE },
{
    if enable {
        CONTROL_ENABLE
    } else {
        CONTROL_DISABLE
    }
}

/// The word stored back to the Mode register, loaded as `raw`, to select
/// `mode`: the mode field replaced, every other bit as loaded.
pub fn mode_register_value(raw: u32, mode: Mode) -> (r: u32)
    ensures
        r == with_mode_field(raw, mode.field()),
        r & MODE_FIELD_MASK == mode.field(),
{
    let mut reg = crate::registers::EtfMode(raw);
    reg.set_mode(mode);
    proof { lemma_mode_field_reads_back(raw, mode); }
    reg.0
}

/// The word stored back to Flush/Format Control, loaded as `raw`, to set or
/// clear stop-on-flush: bit 12 as asked, every other bit as loaded.
pub fn stop_on_flush_value(raw: u32, stop: bool) -> (r: u32)
    ensures
        r == with_bit(raw, FFCR_BIT_STOPONFL, stop),
        bit_set(r, FFCR_BIT_STOPONFL) == stop,
        forall|n: u32| n < 32 && n != FFCR_BIT_STOPONFL ==> #[trigger] bit_set(r, n) == bit_set(raw, n),
{
    let mut ffcr = crate::registers::FormatFlushControl(raw);
    ffcr.set_stoponfl(stop);
    proof { lemma_with_bit(raw, FFCR_BIT_STOPONFL, stop); }
    ffcr.0
}

/// The word stored back to Flush/Format Control, loaded as `raw`, to request
/// a manual flush: bit 6 set, every other bit as loaded. The hardware clears
/// bit 6 itself once the flush completes.
pub fn manual_flush_value(raw: u32) -> (r: u32)
    ensures
        r == with_bit(raw, FFCR_BIT_FLUSHMAN, true),
        bit_set(r, FFCR_BIT_FLUSHMAN),
        forall|n: u32| n < 32 && n != FFCR_BIT_FLUSHMAN ==> #[trigger] bit_set(r, n) == bit_set(raw, n),
{
    let mut ffcr = crate::registers::FormatFlushControl(raw);
    ffcr.set_flushman(true);
    proof { lemma_with_bit(raw, FFCR_BIT_FLUSHMAN, true); }
    ffcr.0
}

/// Registers, by offset, after a whole-word store of `value` at `offset`.
pub open spec fn after_store(regs: Map<u32, u32>, offset: u32, value: u32) -> Map<u32, u32> {
    regs.insert(offset, value)
}

/// Enabling (or disabling) capture twice in a row leaves the registers as
/// doing it once: each is one whole-word store of the same control word.
pub proof fn lemma_control_store_idempotent(regs: Map<u32, u32>, enable: bool)
    ensures
        ({
            let w = if enable { CONTROL_ENABLE } else { CONTROL_DISABLE };
            let once = after_store(regs, REGISTER_OFFSET_CTL, w);
            &&& after_store(once, REGISTER_OFFSET_CTL, w) == once
            &&& once[REGISTER_OFFSET_CTL] == w
        }),
{
    let w = if enable { CONTROL_ENABLE } else { CONTROL_DISABLE };
    let once = after_store(regs, REGISTER_OFFSET_CTL, w);
    assert(after_store(once, REGISTER_OFFSET_CTL, w) =~= once);
}

} // verus!
