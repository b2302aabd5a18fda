//! Register map of the trace FIFO and the bit layouts of its three structured
//! registers: Mode, Status and Flush/Format Control.
use vstd::prelude::*;

verus! {

/// Buffer size register: capacity in 32-bit words.
pub const REGISTER_OFFSET_RSZ: u32 = 0x04;

/// Status register.
pub const REGISTER_OFFSET_STS: u32 = 0x0C;

/// Read-data register: the drain port of the FIFO.
pub const REGISTER_OFFSET_RRD: u32 = 0x10;

/// Control register: bit 0 enables capture.
pub const REGISTER_OFFSET_CTL: u32 = 0x20;

/// Mode register: bits [1:0] select the operating mode.
pub const REGISTER_OFFSET_MODE: u32 = 0x28;

/// Latched buffer fill level, in words.
pub const REGISTER_OFFSET_LBUFLVL: u32 = 0x2C;

/// Current buffer fill level, in words; zero while capture is disabled.
pub const REGISTER_OFFSET_CBUFLVL: u32 = 0x30;

/// Flush/Format Control register.
pub const REGISTER_OFFSET_FFCR: u32 = 0x304;

/// Value of the read-data register when no data is available.
pub const EMPTY_SENTINEL: u32 = 0xFFFF_FFFF;

/// Status bit: the buffer is full.
pub const STATUS_BIT_FULL: u32 = 0;

/// Status bit: a trigger condition has been latched.
pub const STATUS_BIT_TRIGD: u32 = 1;

/// Status bit: capture has stopped and the internal pipeline is drained.
pub const STATUS_BIT_READY: u32 = 2;

/// Status bit: the buffer is empty.
pub const STATUS_BIT_EMPTY: u32 = 4;

/// Flush/Format Control bit: generate a flush event (self-clearing).
pub const FFCR_BIT_FLUSHMAN: u32 = 6;

/// Flush/Format Control bit: stop capture on the next flush event.
pub const FFCR_BIT_STOPONFL: u32 = 12;

/// Mask of the mode field in the Mode register.
pub const MODE_FIELD_MASK: u32 = 0b11;

/// Whether bit `n` of `raw` is set.
pub open spec fn bit_set(raw: u32, n: u32) -> bool {
    (raw >> n) & 1u32 == 1u32
}

/// `raw` with bit `n` set to `v` and every other bit kept.
pub open spec fn with_bit(raw: u32, n: u32, v: bool) -> u32 {
    if v {
        raw | (1u32 << n)
    } else {
        raw & !(1u32 << n)
    }
}

/// `raw` with its two low bits replaced by `field`.
pub open spec fn with_mode_field(raw: u32, field: u32) -> u32 {
    (raw & !MODE_FIELD_MASK) | (field & MODE_FIELD_MASK)
}

/// Writing bit `n` makes it read back as written and leaves the other bits alone.
pub proof fn lemma_with_bit(raw: u32, n: u32, v: bool)
    requires
        n < 32,
    ensures
        bit_set(with_bit(raw, n, v), n) == v,
        forall|m: u32| m < 32 && m != n ==> #[trigger] bit_set(with_bit(raw, n, v), m) == bit_set(raw, m),
{
    if v {
        assert(bit_set(raw | (1u32 << n), n)) by (bit_vector)
            requires n < 32;
        assert forall|m: u32| m < 32 && m != n implies #[trigger] bit_set(raw | (1u32 << n), m) == bit_set(raw, m) by {
            assert(((raw | (1u32 << n)) >> m) & 1u32 == (raw >> m) & 1u32) by (bit_vector)
                requires m < 32, n < 32, m != n;
        }
    } else {
        assert(!bit_set(raw & !(1u32 << n), n)) by (bit_vector)
            requires n < 32;
        assert forall|m: u32| m < 32 && m != n implies #[trigger] bit_set(raw & !(1u32 << n), m) == bit_set(raw, m) by {
            assert(((raw & !(1u32 << n)) >> m) & 1u32 == (raw >> m) & 1u32) by (bit_vector)
                requires m < 32, n < 32, m != n;
        }
    }
}

/// Operating mode of the trace FIFO.
#[derive(Clone, Copy, PartialEq, Eq, Debug)]
pub enum Mode {
    /// Trace memory is used as a circular buffer. When the buffer fills, incoming trace data
    /// overwrites older trace memory until the trace is stopped.
    Circular,
    /// Trace memory is used as a FIFO that is read manually through the read-data register.
    /// When the buffer fills, the incoming trace stream is stalled.
    Software,
    /// Trace memory is used as a FIFO that is drained through hardware to the trace port.
    Hardware,
}

impl Mode {
    /// The value of the Mode register's two-bit field that selects this mode.
    pub open spec fn field(self) -> u32 {
        match self {
            Mode::Circular => 0b00,
            Mode::Software => 0b01,
            Mode::Hardware => 0b10,
        }
    }

    /// The two-bit field value that selects this mode.
    pub fn bits(&self) -> (r: u32)
        ensures
            r == self.field(),
    {
        match self {
            Mode::Circular => 0b00,
            Mode::Software => 0b01,
            Mode::Hardware => 0b10,
        }
    }
}

/// The Mode register.
#[derive(Clone, Copy, PartialEq, Eq, Debug)]
pub struct EtfMode(pub u32);

impl EtfMode {
    /// The mode field, bits [1:0].
    pub fn mode(&self) -> (r: u32)
        ensures
            r == self.0 & MODE_FIELD_MASK,
            r < 4,
    {
        let raw = self.0;
        assert(raw & 0b11u32 < 4) by (bit_vector);
        raw & MODE_FIELD_MASK
    }

    /// Select `mode`, keeping every bit outside the mode field.
    pub fn set_mode(&mut self, mode: Mode)
        ensures
            final(self).0 == with_mode_field(old(self).0, mode.field()),
    {
        self.0 = (self.0 & !MODE_FIELD_MASK) | (mode.bits() & MODE_FIELD_MASK);
    }
}

/// The field of a Mode register value written by selecting `mode` reads back as `mode`.
pub proof fn lemma_mode_field_reads_back(raw: u32, mode: Mode)
    ensures
        with_mode_field(raw, mode.field()) & MODE_FIELD_MASK == mode.field(),
{
    let f = mode.field();
    assert(f < 4);
    assert(((raw & !0b11u32) | (f & 0b11u32)) & 0b11u32 == f) by (bit_vector)
        requires f < 4;
}

/// The Status register.
#[derive(Clone, Copy, PartialEq, Eq, Debug)]
pub struct Status(pub u32);

impl Status {
    /// The buffer is full.
    pub fn full(&self) -> (r: bool)
        ensures
            r == bit_set(self.0, STATUS_BIT_FULL),
    {
        (self.0 >> STATUS_BIT_FULL) & 1 == 1
    }

    /// A trigger condition has been latched (circular modes only).
    pub fn trigd(&self) -> (r: bool)
        ensures
            r == bit_set(self.0, STATUS_BIT_TRIGD),
    {
        (self.0 >> STATUS_BIT_TRIGD) & 1 == 1
    }

    /// Capture has stopped and all internal pipelines and buffers are drained.
    pub fn ready(&self) -> (r: bool)
        ensures
            r == bit_set(self.0, STATUS_BIT_READY),
    {
        (self.0 >> STATUS_BIT_READY) & 1 == 1
    }

    /// The buffer is empty.
    pub fn empty(&self) -> (r: bool)
        ensures
            r == bit_set(self.0, STATUS_BIT_EMPTY),
    {
        (self.0 >> STATUS_BIT_EMPTY) & 1 == 1
    }
}

/// The Flush/Format Control register.
#[derive(Clone, Copy, PartialEq, Eq, Debug)]
pub struct FormatFlushControl(pub u32);

impl FormatFlushControl {
    /// Capture stops on the next flush event.
    pub fn stoponfl(&self) -> (r: bool)
        ensures
            r == bit_set(self.0, FFCR_BIT_STOPONFL),
    {
        (self.0 >> FFCR_BIT_STOPONFL) & 1 == 1
    }

    /// Set or clear stop-on-flush, keeping every other bit.
    pub fn set_stoponfl(&mut self, stop: bool)
        ensures
            final(self).0 == with_bit(old(self).0, FFCR_BIT_STOPONFL, stop),
    {
        if stop {
            self.0 = self.0 | (1u32 << FFCR_BIT_STOPONFL);
        } else {
            self.0 = self.0 & !(1u32 << FFCR_BIT_STOPONFL);
        }
    }

    /// A manual flush has been requested and not yet completed.
    pub fn flushman(&self) -> (r: bool)
        ensures
            r == bit_set(self.0, FFCR_BIT_FLUSHMAN),
    {
        (self.0 >> FFCR_BIT_FLUSHMAN) & 1 == 1
    }

    /// Set or clear the manual-flush request, keeping every other bit.
    pub fn set_flushman(&mut self, flush: bool)
        ensures
            final(self).0 == with_bit(old(self).0, FFCR_BIT_FLUSHMAN, flush),
    {
        if flush {
            self.0 = self.0 | (1u32 << FFCR_BIT_FLUSHMAN);
        } else {
            self.0 = self.0 & !(1u32 << FFCR_BIT_FLUSHMAN);
        }
    }
}

impl From<u32> for EtfMode {
    fn from(raw: u32) -> EtfMode {
        EtfMode(raw)
    }
}

impl vstd::std_specs::convert::FromSpecImpl<u32> for EtfMode {
    open spec fn obeys_from_spec() -> bool {
        true
    }

    open spec fn from_spec(raw: u32) -> EtfMode {
        EtfMode(raw)
    }
}

impl From<EtfMode> for u32 {
    fn from(reg: EtfMode) -> u32 {
        reg.0
    }
}

impl vstd::std_specs::convert::FromSpecImpl<EtfMode> for u32 {
    open spec fn obeys_from_spec() -> bool {
        true
    }

    open spec fn from_spec(reg: EtfMode) -> u32 {
        reg.0
    }
}

impl From<u32> for Status {
    fn from(raw: u32) -> Status {
        Status(raw)
    }
}

impl vstd::std_specs::convert::FromSpecImpl<u32> for Status {
    open spec fn obeys_from_spec() -> bool {
        true
    }

    open spec fn from_spec(raw: u32) -> Status {
        Status(raw)
    }
}

impl From<Status> for u32 {
    fn from(reg: Status) -> u32 {
        reg.0
    }
}

impl vstd::std_specs::convert::FromSpecImpl<Status> for u32 {
    open spec fn obeys_from_spec() -> bool {
        true
    }

    open spec fn from_spec(reg: Status) -> u32 {
        reg.0
    }
}

impl From<u32> for FormatFlushControl {
    fn from(raw: u32) -> FormatFlushControl {
        FormatFlushControl(raw)
    }
}

impl vstd::std_specs::convert::FromSpecImpl<u32> for FormatFlushControl {
    open spec fn obeys_from_spec() -> bool {
        true
    }

    open spec fn from_spec(raw: u32) -> FormatFlushControl {
        FormatFlushControl(raw)
    }
}

impl From<FormatFlushControl> for u32 {
    fn from(reg: FormatFlushControl) -> u32 {
        reg.0
    }
}

impl vstd::std_specs::convert::FromSpecImpl<FormatFlushControl> for u32 {
    open spec fn obeys_from_spec() -> bool {
        true
    }

    open spec fn from_spec(reg: FormatFlushControl) -> u32 {
        reg.0
    }
}

} // verus!
