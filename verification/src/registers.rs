//! The DW_apb_gpio register block, held as its 32-bit words.
//!
//! The block spans `BLOCK_SIZE` bytes of 32-bit registers. Every operation of
//! the GPIO layer is a read-modify-write sequence on these words; the model
//! keeps the words as plain values so that each sequence can be stated and
//! proved. Registers that the hardware drives (external port levels,
//! interrupt status) are ordinary words here and are written by whoever owns
//! the block.

use vstd::prelude::*;

verus! {

/// Distance in bytes between the register groups of two consecutive ports.
pub const PORT_STRIDE: usize = 0x0c;

/// Offset of a port's output data latch within its group (`swport*_dr`).
pub const PORT_DATA: usize = 0x00;

/// Offset of a port's direction register within its group (`swport*_ddr`); 1 is output.
pub const PORT_DIRECTION: usize = 0x04;

/// Offset of a port's data source register within its group (`swport*_ctl`).
pub const PORT_CONTROL: usize = 0x08;

/// Port A interrupt enable (`inten`).
pub const INTERRUPT_ENABLE: usize = 0x30;

/// Port A interrupt mask (`intmask`); 1 masks the interrupt.
pub const INTERRUPT_MASK: usize = 0x34;

/// Port A interrupt type (`inttype_level`); 1 selects edge, 0 level sensitivity.
pub const INTERRUPT_TYPE: usize = 0x38;

/// Port A interrupt polarity (`int_polarity`); 1 selects rising edge or high level.
pub const INTERRUPT_POLARITY: usize = 0x3c;

/// Port A masked interrupt status (`intstatus`).
pub const INTERRUPT_STATUS: usize = 0x40;

/// Port A raw interrupt status (`raw_intstatus`).
pub const RAW_INTERRUPT_STATUS: usize = 0x44;

/// Port A debounce enable (`debounce`).
pub const DEBOUNCE: usize = 0x48;

/// Port A interrupt clear (`porta_eoi`); writing 1 clears a pending edge interrupt.
pub const INTERRUPT_CLEAR: usize = 0x4c;

/// External level of port A (`ext_porta`); ports B to D follow at 4-byte steps.
pub const EXTERNAL_PORT: usize = 0x50;

/// Level-sensitive interrupt synchronisation (`ls_sync`).
pub const LEVEL_SYNC: usize = 0x60;

/// Identification code (`id_code`).
pub const ID_CODE: usize = 0x64;

/// Port A hardware both-edge interrupt selection (`int_bothedge`).
pub const INTERRUPT_BOTH_EDGE: usize = 0x68;

/// Component version (`ver_id_code`).
pub const VERSION_ID: usize = 0x6c;

/// Second configuration register (`config_reg2`).
pub const CONFIG_REG2: usize = 0x70;

/// First configuration register (`config_reg1`).
pub const CONFIG_REG1: usize = 0x74;

/// Size in bytes of the register block.
pub const BLOCK_SIZE: usize = 0x78;

/// Number of 32-bit words in the register block.
pub const BLOCK_WORDS: usize = 30;

/// Number of ports (A to D).
pub const PORT_COUNT: u8 = 4;

/// Byte offset of a port's output data latch.
pub open spec fn data_offset(port: int) -> int {
    port * 12
}

/// Byte offset of a port's direction register.
pub open spec fn direction_offset(port: int) -> int {
    port * 12 + 4
}

/// Byte offset of a port's data source register.
pub open spec fn control_offset(port: int) -> int {
    port * 12 + 8
}

/// Byte offset of a port's external level register.
pub open spec fn external_offset(port: int) -> int {
    0x50 + port * 4
}

/// An offset names a register of the block: it is word aligned and inside it.
pub open spec fn valid_offset(offset: int) -> bool {
    0 <= offset < 0x78 && offset % 4 == 0
}

/// The words after the register at a byte offset is written.
pub open spec fn set_word(words: Seq<u32>, offset: int, value: u32) -> Seq<u32> {
    words.update(offset / 4, value)
}

/// The register at a byte offset.
pub open spec fn word_at(words: Seq<u32>, offset: int) -> u32 {
    words[offset / 4]
}

/// Byte offset of a port's output data latch.
pub fn port_data(port: u8) -> (offset: usize)
    requires
        port < 4,
    ensures
        offset == data_offset(port as int),
        valid_offset(offset as int),
{
    port as usize * PORT_STRIDE + PORT_DATA
}

/// Byte offset of a port's direction register.
pub fn port_direction(port: u8) -> (offset: usize)
    requires
        port < 4,
    ensures
        offset == direction_offset(port as int),
        valid_offset(offset as int),
{
    port as usize * PORT_STRIDE + PORT_DIRECTION
}

/// Byte offset of a port's external level register.
pub fn port_external(port: u8) -> (offset: usize)
    requires
        port < 4,
    ensures
        offset == external_offset(port as int),
        valid_offset(offset as int),
{
    EXTERNAL_PORT + port as usize * 4
}

/// One write of a register word, as the hardware receives it.
#[derive(Clone, Copy, Debug, PartialEq, Eq, Structural)]
pub struct RegisterWrite {
    /// Byte offset of the register in the block.
    pub offset: usize,
    /// The word written.
    pub value: u32,
}

/// Every write of a sequence names a register of the block.
pub open spec fn valid_writes(writes: Seq<RegisterWrite>) -> bool {
    forall|i: int| 0 <= i < writes.len() ==> valid_offset(writes[i].offset as int)
}

/// The register words after the writes are made in order, the last one winning.
pub open spec fn apply_writes(words: Seq<u32>, writes: Seq<RegisterWrite>) -> Seq<u32>
    decreases writes.len(),
{
    if writes.len() == 0 {
        words
    } else {
        let last = writes.last();
        apply_writes(words, writes.drop_last()).update(last.offset as int / 4, last.value)
    }
}

/// One write, unfolded.
pub proof fn lemma_apply_one(words: Seq<u32>, a: RegisterWrite)
    ensures
        apply_writes(words, seq![a]) == set_word(words, a.offset as int, a.value),
{
    reveal_with_fuel(apply_writes, 2);
    assert(seq![a].drop_last() =~= Seq::<RegisterWrite>::empty());
}

/// Two writes, unfolded in order.
pub proof fn lemma_apply_two(words: Seq<u32>, a: RegisterWrite, b: RegisterWrite)
    ensures
        apply_writes(words, seq![a, b]) == set_word(
            set_word(words, a.offset as int, a.value),
            b.offset as int,
            b.value,
        ),
{
    reveal_with_fuel(apply_writes, 3);
    assert(seq![a, b].drop_last() =~= seq![a]);
    assert(seq![a].drop_last() =~= Seq::<RegisterWrite>::empty());
}

/// Three writes, unfolded in order.
pub proof fn lemma_apply_three(words: Seq<u32>, a: RegisterWrite, b: RegisterWrite, c: RegisterWrite)
    ensures
        apply_writes(words, seq![a, b, c]) == set_word(
            set_word(set_word(words, a.offset as int, a.value), b.offset as int, b.value),
            c.offset as int,
            c.value,
        ),
{
    assert(seq![a, b, c].drop_last() =~= seq![a, b]);
    lemma_apply_two(words, a, b);
}

/// Four writes, unfolded in order.
pub proof fn lemma_apply_four(
    words: Seq<u32>,
    a: RegisterWrite,
    b: RegisterWrite,
    c: RegisterWrite,
    d: RegisterWrite,
)
    ensures
        apply_writes(words, seq![a, b, c, d]) == set_word(
            set_word(
                set_word(set_word(words, a.offset as int, a.value), b.offset as int, b.value),
                c.offset as int,
                c.value,
            ),
            d.offset as int,
            d.value,
        ),
{
    assert(seq![a, b, c, d].drop_last() =~= seq![a, b, c]);
    lemma_apply_three(words, a, b, c);
}

/// Five writes, unfolded in order.
pub proof fn lemma_apply_five(
    words: Seq<u32>,
    a: RegisterWrite,
    b: RegisterWrite,
    c: RegisterWrite,
    d: RegisterWrite,
    e: RegisterWrite,
)
    ensures
        apply_writes(words, seq![a, b, c, d, e]) == set_word(
            set_word(
                set_word(
                    set_word(set_word(words, a.offset as int, a.value), b.offset as int, b.value),
                    c.offset as int,
                    c.value,
                ),
                d.offset as int,
                d.value,
            ),
            e.offset as int,
            e.value,
        ),
{
    assert(seq![a, b, c, d, e].drop_last() =~= seq![a, b, c, d]);
    lemma_apply_four(words, a, b, c, d);
}

/// The most writes that one pad operation makes.
pub const PLAN_CAPACITY: usize = 5;

/// The ordered register writes of one pad operation, held without allocation.
#[derive(Clone, Copy)]
pub struct Plan {
    writes: [RegisterWrite; 5],
    len: usize,
}

impl View for Plan {
    type V = Seq<RegisterWrite>;

    /// The writes, first to last.
    closed spec fn view(&self) -> Seq<RegisterWrite> {
        self.writes@.take(self.len as int)
    }
}

impl Plan {
    #[verifier::type_invariant]
    closed spec fn inv(self) -> bool {
        self.len <= 5
    }

    /// A plan of no writes.
    pub fn new() -> (plan: Plan)
        ensures
            plan@ == Seq::<RegisterWrite>::empty(),
    {
        let none = RegisterWrite { offset: 0, value: 0 };
        let plan = Plan { writes: [none, none, none, none, none], len: 0 };
        assert(plan@ =~= Seq::<RegisterWrite>::empty());
        plan
    }

    /// Appends a write.
    pub fn push(&mut self, write: RegisterWrite)
        requires
            old(self)@.len() < PLAN_CAPACITY,
        ensures
            final(self)@ == old(self)@.push(write),
    {
        proof { use_type_invariant(&*self); }
        let len = self.len;
        self.writes[len] = write;
        self.len = len + 1;
        assert(self@ =~= old(self)@.push(write));
    }

    /// The number of writes.
    pub fn len(&self) -> (len: usize)
        ensures
            len == self@.len(),
    {
        proof { use_type_invariant(self); }
        self.len
    }

    /// The write at position `index`, counting from the first.
    pub fn get(&self, index: usize) -> (write: RegisterWrite)
        requires
            index < self@.len(),
        ensures
            write == self@[index as int],
    {
        proof { use_type_invariant(self); }
        self.writes[index]
    }
}

/// The register block of a DW_apb_gpio instance.
#[derive(Clone, Copy)]
pub struct DwApbGpio {
    words: [u32; 30],
}

impl View for DwApbGpio {
    type V = Seq<u32>;

    /// The register words, word `i` at byte offset `4 * i`.
    closed spec fn view(&self) -> Seq<u32> {
        self.words@
    }
}

impl DwApbGpio {
    /// The register at a byte offset.
    pub open spec fn word(self, offset: int) -> u32 {
        word_at(self@, offset)
    }

    /// A register block whose words all read zero.
    pub fn new() -> (gpio: DwApbGpio)
        ensures
            gpio@.len() == 30,
            forall|i: int| 0 <= i < 30 ==> gpio@[i] == 0,
    {
        DwApbGpio { words: [0u32; 30] }
    }

    /// The register block holds its thirty words.
    pub proof fn lemma_len(self)
        ensures
            self@.len() == 30,
    {
    }

    /// Reads the register at a byte offset.
    pub fn read(&self, offset: usize) -> (value: u32)
        requires
            valid_offset(offset as int),
        ensures
            value == self.word(offset as int),
    {
        self.words[offset / 4]
    }

    /// Writes the register at a byte offset.
    pub fn write(&mut self, offset: usize, value: u32)
        requires
            valid_offset(offset as int),
        ensures
            final(self)@ == old(self)@.update(offset as int / 4, value),
    {
        self.words[offset / 4] = value;
    }

    /// Makes a sequence of writes, in order.
    pub fn perform(&mut self, writes: &Plan)
        requires
            valid_writes(writes@),
        ensures
            final(self)@ == apply_writes(old(self)@, writes@),
    {
        let mut i: usize = 0;
        while i < writes.len()
            invariant
                i <= writes@.len(),
                valid_writes(writes@),
                self@ == apply_writes(old(self)@, writes@.take(i as int)),
            decreases writes@.len() - i,
        {
            let w = writes.get(i);
            self.write(w.offset, w.value);
            assert(writes@.take(i as int + 1).drop_last() =~= writes@.take(i as int));
            i = i + 1;
        }
        assert(writes@.take(i as int) =~= writes@);
    }
}

} // verus!
