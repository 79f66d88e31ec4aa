//! Register operations shared by the GPIO pad types.
//!
//! A read of a pin is a function of the register words. A change of a pin is
//! a plan: the ordered register writes that the read-modify-write sequence of
//! the operation makes, computed from the words as they stand. The plans only
//! touch the pin's own bit of each register; the writes for a plan are made
//! inside one critical section.

use vstd::prelude::*;

use crate::eint::Event;
use crate::eint_with_both_edges::EventWithBothEdges;
use crate::pad::Pad;
use crate::pin_state::PinState;
use crate::registers::{
    data_offset, direction_offset, external_offset, port_data, port_direction, port_external,
    valid_writes, word_at, DwApbGpio, Plan, RegisterWrite, INTERRUPT_BOTH_EDGE, INTERRUPT_CLEAR,
    INTERRUPT_ENABLE, INTERRUPT_MASK, INTERRUPT_POLARITY, INTERRUPT_STATUS, INTERRUPT_TYPE,
};

verus! {

/// The word with the bits of `mask` set when `on` holds, cleared otherwise.
pub open spec fn assign_bits(word: u32, mask: u32, on: bool) -> u32 {
    if on {
        word | mask
    } else {
        word & !mask
    }
}

/// The write of a register word, as a plan names it.
pub open spec fn write_of(offset: int, value: u32) -> RegisterWrite {
    RegisterWrite { offset: offset as usize, value }
}

/// Whether the pin's external level is high.
pub open spec fn level(words: Seq<u32>, pad: Pad) -> bool {
    word_at(words, external_offset(pad.port as int)) & pad.mask != 0
}

/// Whether the pin's output latch is high.
pub open spec fn latch(words: Seq<u32>, pad: Pad) -> bool {
    word_at(words, data_offset(pad.port as int)) & pad.mask != 0
}

/// Whether the pin is configured as an output.
pub open spec fn is_output(words: Seq<u32>, pad: Pad) -> bool {
    word_at(words, direction_offset(pad.port as int)) & pad.mask != 0
}

/// Whether the pin has an unmasked pending interrupt.
pub open spec fn interrupt_pending(words: Seq<u32>, pad: Pad) -> bool {
    word_at(words, INTERRUPT_STATUS as int) & pad.mask != 0
}

/// Drives the output latch to `state`.
pub open spec fn level_plan(words: Seq<u32>, pad: Pad, state: PinState) -> Seq<RegisterWrite> {
    let data = data_offset(pad.port as int);
    seq![write_of(data, assign_bits(word_at(words, data), pad.mask, state == PinState::High))]
}

/// Inverts the output latch.
pub open spec fn toggle_plan(words: Seq<u32>, pad: Pad) -> Seq<RegisterWrite> {
    let data = data_offset(pad.port as int);
    seq![write_of(data, word_at(words, data) ^ pad.mask)]
}

/// Makes the pin an input.
pub open spec fn input_plan(words: Seq<u32>, pad: Pad) -> Seq<RegisterWrite> {
    let direction = direction_offset(pad.port as int);
    seq![write_of(direction, word_at(words, direction) & !pad.mask)]
}

/// Sets the output latch to `state`, then makes the pin an output.
pub open spec fn output_plan(words: Seq<u32>, pad: Pad, state: PinState) -> Seq<RegisterWrite> {
    let data = data_offset(pad.port as int);
    let direction = direction_offset(pad.port as int);
    seq![
        write_of(data, assign_bits(word_at(words, data), pad.mask, state == PinState::High)),
        write_of(direction, word_at(words, direction) | pad.mask),
    ]
}

/// Masks and disables the pin's interrupt, then makes the pin an input.
pub open spec fn into_eint_plan(words: Seq<u32>, pad: Pad) -> Seq<RegisterWrite> {
    let direction = direction_offset(pad.port as int);
    seq![
        write_of(INTERRUPT_MASK as int, word_at(words, INTERRUPT_MASK as int) | pad.mask),
        write_of(INTERRUPT_ENABLE as int, word_at(words, INTERRUPT_ENABLE as int) & !pad.mask),
        write_of(direction, word_at(words, direction) & !pad.mask),
    ]
}

/// Masks and disables the pin's interrupt, sets the output latch to `state`,
/// then makes the pin an output.
pub open spec fn eint_into_output_plan(words: Seq<u32>, pad: Pad, state: PinState) -> Seq<
    RegisterWrite,
> {
    let data = data_offset(pad.port as int);
    let direction = direction_offset(pad.port as int);
    seq![
        write_of(INTERRUPT_MASK as int, word_at(words, INTERRUPT_MASK as int) | pad.mask),
        write_of(INTERRUPT_ENABLE as int, word_at(words, INTERRUPT_ENABLE as int) & !pad.mask),
        write_of(data, assign_bits(word_at(words, data), pad.mask, state == PinState::High)),
        write_of(direction, word_at(words, direction) | pad.mask),
    ]
}

/// Enables, then unmasks the pin's interrupt.
pub open spec fn enable_interrupt_plan(words: Seq<u32>, pad: Pad) -> Seq<RegisterWrite> {
    seq![
        write_of(INTERRUPT_ENABLE as int, word_at(words, INTERRUPT_ENABLE as int) | pad.mask),
        write_of(INTERRUPT_MASK as int, word_at(words, INTERRUPT_MASK as int) & !pad.mask),
    ]
}

/// Masks, then disables the pin's interrupt.
pub open spec fn disable_interrupt_plan(words: Seq<u32>, pad: Pad) -> Seq<RegisterWrite> {
    seq![
        write_of(INTERRUPT_MASK as int, word_at(words, INTERRUPT_MASK as int) | pad.mask),
        write_of(INTERRUPT_ENABLE as int, word_at(words, INTERRUPT_ENABLE as int) & !pad.mask),
    ]
}

/// Writes the pin's bit, alone, to the write-one-to-clear interrupt register.
pub open spec fn clear_interrupt_plan(pad: Pad) -> Seq<RegisterWrite> {
    seq![write_of(INTERRUPT_CLEAR as int, pad.mask)]
}

/// Masks the pin's interrupt, selects its type and polarity, then puts the
/// mask register back as it was read.
pub open spec fn event_plan(words: Seq<u32>, pad: Pad, event: Event) -> Seq<RegisterWrite> {
    let masked = word_at(words, INTERRUPT_MASK as int);
    seq![
        write_of(INTERRUPT_MASK as int, masked | pad.mask),
        write_of(
            INTERRUPT_TYPE as int,
            assign_bits(word_at(words, INTERRUPT_TYPE as int), pad.mask, event.is_edge()),
        ),
        write_of(
            INTERRUPT_POLARITY as int,
            assign_bits(word_at(words, INTERRUPT_POLARITY as int), pad.mask, event.is_active_high()),
        ),
        write_of(INTERRUPT_MASK as int, masked),
    ]
}

/// Masks the pin's interrupt, selects its type, polarity and both-edge
/// detection, then puts the mask register back as it was read.
pub open spec fn event_with_both_edges_plan(
    words: Seq<u32>,
    pad: Pad,
    event: EventWithBothEdges,
) -> Seq<RegisterWrite> {
    let masked = word_at(words, INTERRUPT_MASK as int);
    seq![
        write_of(INTERRUPT_MASK as int, masked | pad.mask),
        write_of(
            INTERRUPT_TYPE as int,
            assign_bits(word_at(words, INTERRUPT_TYPE as int), pad.mask, event.is_edge()),
        ),
        write_of(
            INTERRUPT_POLARITY as int,
            assign_bits(word_at(words, INTERRUPT_POLARITY as int), pad.mask, event.is_active_high()),
        ),
        write_of(
            INTERRUPT_BOTH_EDGE as int,
            assign_bits(word_at(words, INTERRUPT_BOTH_EDGE as int), pad.mask, event.is_both_edges()),
        ),
        write_of(INTERRUPT_MASK as int, masked),
    ]
}

/// The saved state of a pin: bit 1 records the direction, bit 0 the output latch.
pub open spec fn saved_state(words: Seq<u32>, pad: Pad) -> u8 {
    (if is_output(words, pad) { 2u8 } else { 0u8 }) | (if latch(words, pad) { 1u8 } else { 0u8 })
}

/// Puts back a saved direction and latch. An output gets its latch before its
/// direction; an input gets its direction before its latch, so the pin never
/// drives a level that was not saved.
pub open spec fn restore_plan(words: Seq<u32>, pad: Pad, state: u8) -> Seq<RegisterWrite> {
    let data = data_offset(pad.port as int);
    let direction = direction_offset(pad.port as int);
    let latch_write = write_of(data, assign_bits(word_at(words, data), pad.mask, state & 1 != 0));
    if state & 2 != 0 {
        seq![latch_write, write_of(direction, word_at(words, direction) | pad.mask)]
    } else {
        seq![write_of(direction, word_at(words, direction) & !pad.mask), latch_write]
    }
}

/// Every plan of a valid pin names registers of the block only.
pub proof fn lemma_plans_valid(words: Seq<u32>, pad: Pad, state: PinState)
    requires
        pad.wf(),
    ensures
        valid_writes(level_plan(words, pad, state)),
        valid_writes(toggle_plan(words, pad)),
        valid_writes(input_plan(words, pad)),
        valid_writes(output_plan(words, pad, state)),
        valid_writes(into_eint_plan(words, pad)),
        valid_writes(eint_into_output_plan(words, pad, state)),
        valid_writes(enable_interrupt_plan(words, pad)),
        valid_writes(disable_interrupt_plan(words, pad)),
        valid_writes(clear_interrupt_plan(pad)),
{
}

/// The event plans name registers of the block only.
pub proof fn lemma_event_plans_valid(
    words: Seq<u32>,
    pad: Pad,
    event: Event,
    both: EventWithBothEdges,
)
    ensures
        valid_writes(event_plan(words, pad, event)),
        valid_writes(event_with_both_edges_plan(words, pad, both)),
{
}

/// The restore plan of a valid pin names registers of the block only.
pub proof fn lemma_restore_plan_valid(words: Seq<u32>, pad: Pad, state: u8)
    requires
        pad.wf(),
    ensures
        valid_writes(restore_plan(words, pad, state)),
{
}

/// A pad operation, named to look up the registers that it reads.
#[derive(Clone, Copy, Debug, PartialEq, Eq, Structural)]
pub enum Operation {
    /// `op_level`.
    Level,
    /// `op_latch`.
    Latch,
    /// `op_interrupt_pending`.
    InterruptPending,
    /// `op_save`.
    Save,
    /// `op_set_level`.
    SetLevel,
    /// `op_toggle`.
    Toggle,
    /// `op_set_input`.
    SetInput,
    /// `op_set_output`.
    SetOutput,
    /// `op_into_eint`.
    IntoEint,
    /// `op_eint_into_output`.
    EintIntoOutput,
    /// `op_enable_interrupt`.
    EnableInterrupt,
    /// `op_disable_interrupt`.
    DisableInterrupt,
    /// `op_set_event`.
    SetEvent,
    /// `op_set_event_with_both_edges`.
    SetEventWithBothEdges,
    /// `op_restore`.
    Restore,
}

/// The byte offsets of the registers that an operation reads, four entries
/// of which some may repeat. (`op_clear_interrupt` reads no register.)
pub open spec fn read_offsets(pad: Pad, operation: Operation) -> Seq<usize> {
    let data = data_offset(pad.port as int) as usize;
    let direction = direction_offset(pad.port as int) as usize;
    let external = external_offset(pad.port as int) as usize;
    match operation {
        Operation::Level => seq![external, external, external, external],
        Operation::Latch | Operation::SetLevel | Operation::Toggle => seq![data, data, data, data],
        Operation::InterruptPending => seq![
            INTERRUPT_STATUS,
            INTERRUPT_STATUS,
            INTERRUPT_STATUS,
            INTERRUPT_STATUS,
        ],
        Operation::SetInput => seq![direction, direction, direction, direction],
        Operation::Save | Operation::SetOutput | Operation::Restore => seq![
            data,
            direction,
            data,
            direction,
        ],
        Operation::IntoEint => seq![INTERRUPT_MASK, INTERRUPT_ENABLE, direction, direction],
        Operation::EintIntoOutput => seq![INTERRUPT_MASK, INTERRUPT_ENABLE, data, direction],
        Operation::EnableInterrupt | Operation::DisableInterrupt => seq![
            INTERRUPT_MASK,
            INTERRUPT_ENABLE,
            INTERRUPT_MASK,
            INTERRUPT_ENABLE,
        ],
        Operation::SetEvent => seq![
            INTERRUPT_MASK,
            INTERRUPT_TYPE,
            INTERRUPT_POLARITY,
            INTERRUPT_MASK,
        ],
        Operation::SetEventWithBothEdges => seq![
            INTERRUPT_MASK,
            INTERRUPT_TYPE,
            INTERRUPT_POLARITY,
            INTERRUPT_BOTH_EDGE,
        ],
    }
}

/// Two register states hold the same words at the given offsets.
pub open spec fn agree_on(a: Seq<u32>, b: Seq<u32>, offsets: Seq<usize>) -> bool {
    forall|i: int| 0 <= i < offsets.len() ==> word_at(a, offsets[i] as int) == word_at(b, offsets[i] as int)
}

/// The byte offsets of the registers that an operation reads, so that code
/// reading the registers itself needs to read only these.
pub fn op_reads(pad: &Pad, operation: Operation) -> (offsets: [usize; 4])
    requires
        pad.wf(),
    ensures
        offsets@ == read_offsets(*pad, operation),
{
    let data = port_data(pad.port);
    let direction = port_direction(pad.port);
    let external = port_external(pad.port);
    let offsets = match operation {
        Operation::Level => [external, external, external, external],
        Operation::Latch | Operation::SetLevel | Operation::Toggle => [data, data, data, data],
        Operation::InterruptPending => [
            INTERRUPT_STATUS,
            INTERRUPT_STATUS,
            INTERRUPT_STATUS,
            INTERRUPT_STATUS,
        ],
        Operation::SetInput => [direction, direction, direction, direction],
        Operation::Save | Operation::SetOutput | Operation::Restore => [
            data,
            direction,
            data,
            direction,
        ],
        Operation::IntoEint => [INTERRUPT_MASK, INTERRUPT_ENABLE, direction, direction],
        Operation::EintIntoOutput => [INTERRUPT_MASK, INTERRUPT_ENABLE, data, direction],
        Operation::EnableInterrupt | Operation::DisableInterrupt => [
            INTERRUPT_MASK,
            INTERRUPT_ENABLE,
            INTERRUPT_MASK,
            INTERRUPT_ENABLE,
        ],
        Operation::SetEvent => [INTERRUPT_MASK, INTERRUPT_TYPE, INTERRUPT_POLARITY, INTERRUPT_MASK],
        Operation::SetEventWithBothEdges => [
            INTERRUPT_MASK,
            INTERRUPT_TYPE,
            INTERRUPT_POLARITY,
            INTERRUPT_BOTH_EDGE,
        ],
    };
    assert(offsets@ =~= read_offsets(*pad, operation));
    offsets
}

/// The word at an offset that two agreeing states both hold.
proof fn lemma_agree_at(a: Seq<u32>, b: Seq<u32>, offsets: Seq<usize>, i: int)
    requires
        agree_on(a, b, offsets),
        0 <= i < offsets.len(),
    ensures
        word_at(a, offsets[i] as int) == word_at(b, offsets[i] as int),
{
}

/// Each operation depends on the registers that `read_offsets` names and on
/// no other: on two register states that agree on those words, the reads
/// give the same answers and the plans the same writes.
pub proof fn lemma_operations_read_only_their_registers(
    a: Seq<u32>,
    b: Seq<u32>,
    pad: Pad,
    state: PinState,
    event: Event,
    both: EventWithBothEdges,
    saved: u8,
)
    requires
        pad.wf(),
    ensures
        agree_on(a, b, read_offsets(pad, Operation::Level)) ==> level(a, pad) == level(b, pad),
        agree_on(a, b, read_offsets(pad, Operation::Latch)) ==> latch(a, pad) == latch(b, pad),
        agree_on(a, b, read_offsets(pad, Operation::InterruptPending)) ==> interrupt_pending(a, pad)
            == interrupt_pending(b, pad),
        agree_on(a, b, read_offsets(pad, Operation::Save)) ==> saved_state(a, pad) == saved_state(
            b,
            pad,
        ),
        agree_on(a, b, read_offsets(pad, Operation::SetLevel)) ==> level_plan(a, pad, state)
            == level_plan(b, pad, state),
        agree_on(a, b, read_offsets(pad, Operation::Toggle)) ==> toggle_plan(a, pad) == toggle_plan(
            b,
            pad,
        ),
        agree_on(a, b, read_offsets(pad, Operation::SetInput)) ==> input_plan(a, pad) == input_plan(
            b,
            pad,
        ),
        agree_on(a, b, read_offsets(pad, Operation::SetOutput)) ==> output_plan(a, pad, state)
            == output_plan(b, pad, state),
        agree_on(a, b, read_offsets(pad, Operation::IntoEint)) ==> into_eint_plan(a, pad)
            == into_eint_plan(b, pad),
        agree_on(a, b, read_offsets(pad, Operation::EintIntoOutput)) ==> eint_into_output_plan(
            a,
            pad,
            state,
        ) == eint_into_output_plan(b, pad, state),
        agree_on(a, b, read_offsets(pad, Operation::EnableInterrupt)) ==> enable_interrupt_plan(
            a,
            pad,
        ) == enable_interrupt_plan(b, pad),
        agree_on(a, b, read_offsets(pad, Operation::DisableInterrupt)) ==> disable_interrupt_plan(
            a,
            pad,
        ) == disable_interrupt_plan(b, pad),
        agree_on(a, b, read_offsets(pad, Operation::SetEvent)) ==> event_plan(a, pad, event)
            == event_plan(b, pad, event),
        agree_on(a, b, read_offsets(pad, Operation::SetEventWithBothEdges))
            ==> event_with_both_edges_plan(a, pad, both) == event_with_both_edges_plan(b, pad, both),
        agree_on(a, b, read_offsets(pad, Operation::Restore)) ==> restore_plan(a, pad, saved)
            == restore_plan(b, pad, saved),
{
    let operations = seq![
        Operation::Level,
        Operation::Latch,
        Operation::InterruptPending,
        Operation::Save,
        Operation::SetLevel,
        Operation::Toggle,
        Operation::SetInput,
        Operation::SetOutput,
        Operation::IntoEint,
        Operation::EintIntoOutput,
        Operation::EnableInterrupt,
        Operation::DisableInterrupt,
        Operation::SetEvent,
        Operation::SetEventWithBothEdges,
        Operation::Restore,
    ];
    assert forall|k: int| 0 <= k < operations.len() && #[trigger] agree_on(
        a,
        b,
        read_offsets(pad, operations[k]),
    ) implies {
        let offsets = read_offsets(pad, operations[k]);
        &&& word_at(a, offsets[0] as int) == word_at(b, offsets[0] as int)
        &&& word_at(a, offsets[1] as int) == word_at(b, offsets[1] as int)
        &&& word_at(a, offsets[2] as int) == word_at(b, offsets[2] as int)
        &&& word_at(a, offsets[3] as int) == word_at(b, offsets[3] as int)
    } by {
        let offsets = read_offsets(pad, operations[k]);
        lemma_agree_at(a, b, offsets, 0);
        lemma_agree_at(a, b, offsets, 1);
        lemma_agree_at(a, b, offsets, 2);
        lemma_agree_at(a, b, offsets, 3);
    }
    assert(operations[0] == Operation::Level);
    assert(operations[1] == Operation::Latch);
    assert(operations[2] == Operation::InterruptPending);
    assert(operations[3] == Operation::Save);
    assert(operations[4] == Operation::SetLevel);
    assert(operations[5] == Operation::Toggle);
    assert(operations[6] == Operation::SetInput);
    assert(operations[7] == Operation::SetOutput);
    assert(operations[8] == Operation::IntoEint);
    assert(operations[9] == Operation::EintIntoOutput);
    assert(operations[10] == Operation::EnableInterrupt);
    assert(operations[11] == Operation::DisableInterrupt);
    assert(operations[12] == Operation::SetEvent);
    assert(operations[13] == Operation::SetEventWithBothEdges);
    assert(operations[14] == Operation::Restore);
}

/// The word with the bits of `mask` set or cleared.
fn assign(word: u32, mask: u32, on: bool) -> (r: u32)
    ensures
        r == assign_bits(word, mask, on),
{
    if on {
        word | mask
    } else {
        word & !mask
    }
}

/// Returns whether the external pin level is high.
pub fn op_level(pad: &Pad, gpio: &DwApbGpio) -> (high: bool)
    requires
        pad.wf(),
    ensures
        high == level(gpio@, *pad),
{
    gpio.read(port_external(pad.port)) & pad.mask != 0
}

/// Returns whether the output latch is high.
pub fn op_latch(pad: &Pad, gpio: &DwApbGpio) -> (high: bool)
    requires
        pad.wf(),
    ensures
        high == latch(gpio@, *pad),
{
    gpio.read(port_data(pad.port)) & pad.mask != 0
}

/// Returns whether the pin has an unmasked pending interrupt.
pub fn op_interrupt_pending(pad: &Pad, gpio: &DwApbGpio) -> (pending: bool)
    requires
        pad.wf(),
    ensures
        pending == interrupt_pending(gpio@, *pad),
{
    gpio.read(INTERRUPT_STATUS) & pad.mask != 0
}

/// The writes that drive the output latch to `state`.
pub fn op_set_level(
    _cs: critical_section::CriticalSection<'_>,
    gpio: &DwApbGpio,
    pad: &Pad,
    state: PinState,
) -> (writes: Plan)
    requires
        pad.wf(),
    ensures
        writes@ == level_plan(gpio@, *pad, state),
{
    let data = port_data(pad.port);
    let value = assign(gpio.read(data), pad.mask, state.is_high());
    let mut writes = Plan::new();
    writes.push(RegisterWrite { offset: data, value });
    writes
}

/// The writes that invert the output latch.
pub fn op_toggle(_cs: critical_section::CriticalSection<'_>, gpio: &DwApbGpio, pad: &Pad) -> (writes:
    Plan)
    requires
        pad.wf(),
    ensures
        writes@ == toggle_plan(gpio@, *pad),
{
    let data = port_data(pad.port);
    let mut writes = Plan::new();
    writes.push(RegisterWrite { offset: data, value: gpio.read(data) ^ pad.mask });
    writes
}

/// The writes that make the pin an input.
pub fn op_set_input(_cs: critical_section::CriticalSection<'_>, gpio: &DwApbGpio, pad: &Pad) -> (writes:
    Plan)
    requires
        pad.wf(),
    ensures
        writes@ == input_plan(gpio@, *pad),
{
    let direction = port_direction(pad.port);
    let mut writes = Plan::new();
    writes.push(RegisterWrite { offset: direction, value: gpio.read(direction) & !pad.mask });
    writes
}

/// The writes that set the output latch to `state` and make the pin an output.
pub fn op_set_output(
    _cs: critical_section::CriticalSection<'_>,
    gpio: &DwApbGpio,
    pad: &Pad,
    state: PinState,
) -> (writes: Plan)
    requires
        pad.wf(),
    ensures
        writes@ == output_plan(gpio@, *pad, state),
{
    let data = port_data(pad.port);
    let direction = port_direction(pad.port);
    let mut writes = Plan::new();
    writes.push(
        RegisterWrite { offset: data, value: assign(gpio.read(data), pad.mask, state.is_high()) },
    );
    writes.push(RegisterWrite { offset: direction, value: gpio.read(direction) | pad.mask });
    assert(writes@ =~= output_plan(gpio@, *pad, state));
    writes
}

/// The writes that mask and disable the pin's interrupt and make it an input.
/// Only port A has interrupts.
pub fn op_into_eint(_cs: critical_section::CriticalSection<'_>, gpio: &DwApbGpio, pad: &Pad) -> (writes:
    Plan)
    requires
        pad.wf(),
        pad.port == 0,
    ensures
        writes@ == into_eint_plan(gpio@, *pad),
{
    let direction = port_direction(pad.port);
    let mut writes = Plan::new();
    writes.push(
        RegisterWrite { offset: INTERRUPT_MASK, value: gpio.read(INTERRUPT_MASK) | pad.mask },
    );
    writes.push(
        RegisterWrite { offset: INTERRUPT_ENABLE, value: gpio.read(INTERRUPT_ENABLE) & !pad.mask },
    );
    writes.push(RegisterWrite { offset: direction, value: gpio.read(direction) & !pad.mask });
    assert(writes@ =~= into_eint_plan(gpio@, *pad));
    writes
}

/// The writes that mask and disable the pin's interrupt and make it an output at `state`.
pub fn op_eint_into_output(
    _cs: critical_section::CriticalSection<'_>,
    gpio: &DwApbGpio,
    pad: &Pad,
    state: PinState,
) -> (writes: Plan)
    requires
        pad.wf(),
    ensures
        writes@ == eint_into_output_plan(gpio@, *pad, state),
{
    let data = port_data(pad.port);
    let direction = port_direction(pad.port);
    let mut writes = Plan::new();
    writes.push(
        RegisterWrite { offset: INTERRUPT_MASK, value: gpio.read(INTERRUPT_MASK) | pad.mask },
    );
    writes.push(
        RegisterWrite { offset: INTERRUPT_ENABLE, value: gpio.read(INTERRUPT_ENABLE) & !pad.mask },
    );
    writes.push(
        RegisterWrite { offset: data, value: assign(gpio.read(data), pad.mask, state.is_high()) },
    );
    writes.push(RegisterWrite { offset: direction, value: gpio.read(direction) | pad.mask });
    assert(writes@ =~= eint_into_output_plan(gpio@, *pad, state));
    writes
}

/// The writes that enable and unmask the pin's interrupt.
pub fn op_enable_interrupt(
    _cs: critical_section::CriticalSection<'_>,
    gpio: &DwApbGpio,
    pad: &Pad,
) -> (writes: Plan)
    requires
        pad.wf(),
    ensures
        writes@ == enable_interrupt_plan(gpio@, *pad),
{
    let mut writes = Plan::new();
    writes.push(
        RegisterWrite { offset: INTERRUPT_ENABLE, value: gpio.read(INTERRUPT_ENABLE) | pad.mask },
    );
    writes.push(
        RegisterWrite { offset: INTERRUPT_MASK, value: gpio.read(INTERRUPT_MASK) & !pad.mask },
    );
    assert(writes@ =~= enable_interrupt_plan(gpio@, *pad));
    writes
}

/// The writes that mask and disable the pin's interrupt.
pub fn op_disable_interrupt(
    _cs: critical_section::CriticalSection<'_>,
    gpio: &DwApbGpio,
    pad: &Pad,
) -> (writes: Plan)
    requires
        pad.wf(),
    ensures
        writes@ == disable_interrupt_plan(gpio@, *pad),
{
    let mut writes = Plan::new();
    writes.push(
        RegisterWrite { offset: INTERRUPT_MASK, value: gpio.read(INTERRUPT_MASK) | pad.mask },
    );
    writes.push(
        RegisterWrite { offset: INTERRUPT_ENABLE, value: gpio.read(INTERRUPT_ENABLE) & !pad.mask },
    );
    assert(writes@ =~= disable_interrupt_plan(gpio@, *pad));
    writes
}

/// The write that clears the pin's pending edge interrupt; it touches no other pin.
pub fn op_clear_interrupt(pad: &Pad) -> (writes: Plan)
    requires
        pad.wf(),
    ensures
        writes@ == clear_interrupt_plan(*pad),
{
    let mut writes = Plan::new();
    writes.push(RegisterWrite { offset: INTERRUPT_CLEAR, value: pad.mask });
    writes
}

/// The writes that select a single-edge or level interrupt event.
pub fn op_set_event(
    _cs: critical_section::CriticalSection<'_>,
    gpio: &DwApbGpio,
    pad: &Pad,
    event: Event,
) -> (writes: Plan)
    requires
        pad.wf(),
    ensures
        writes@ == event_plan(gpio@, *pad, event),
{
    let masked = gpio.read(INTERRUPT_MASK);
    let edge = match event {
        Event::RisingEdge | Event::FallingEdge => true,
        _ => false,
    };
    let high = match event {
        Event::RisingEdge | Event::HighLevel => true,
        _ => false,
    };
    let mut writes = Plan::new();
    writes.push(RegisterWrite { offset: INTERRUPT_MASK, value: masked | pad.mask });
    writes.push(
        RegisterWrite {
            offset: INTERRUPT_TYPE,
            value: assign(gpio.read(INTERRUPT_TYPE), pad.mask, edge),
        },
    );
    writes.push(
        RegisterWrite {
            offset: INTERRUPT_POLARITY,
            value: assign(gpio.read(INTERRUPT_POLARITY), pad.mask, high),
        },
    );
    writes.push(RegisterWrite { offset: INTERRUPT_MASK, value: masked });
    assert(writes@ =~= event_plan(gpio@, *pad, event));
    writes
}

/// The writes that select an interrupt event, both-edge detection included.
pub fn op_set_event_with_both_edges(
    _cs: critical_section::CriticalSection<'_>,
    gpio: &DwApbGpio,
    pad: &Pad,
    event: EventWithBothEdges,
) -> (writes: Plan)
    requires
        pad.wf(),
    ensures
        writes@ == event_with_both_edges_plan(gpio@, *pad, event),
{
    let masked = gpio.read(INTERRUPT_MASK);
    let edge = match event {
        EventWithBothEdges::RisingEdge
        | EventWithBothEdges::FallingEdge
        | EventWithBothEdges::BothEdges => true,
        _ => false,
    };
    let high = match event {
        EventWithBothEdges::RisingEdge | EventWithBothEdges::HighLevel => true,
        _ => false,
    };
    let both = match event {
        EventWithBothEdges::BothEdges => true,
        _ => false,
    };
    let mut writes = Plan::new();
    writes.push(RegisterWrite { offset: INTERRUPT_MASK, value: masked | pad.mask });
    writes.push(
        RegisterWrite {
            offset: INTERRUPT_TYPE,
            value: assign(gpio.read(INTERRUPT_TYPE), pad.mask, edge),
        },
    );
    writes.push(
        RegisterWrite {
            offset: INTERRUPT_POLARITY,
            value: assign(gpio.read(INTERRUPT_POLARITY), pad.mask, high),
        },
    );
    writes.push(
        RegisterWrite {
            offset: INTERRUPT_BOTH_EDGE,
            value: assign(gpio.read(INTERRUPT_BOTH_EDGE), pad.mask, both),
        },
    );
    writes.push(RegisterWrite { offset: INTERRUPT_MASK, value: masked });
    assert(writes@ =~= event_with_both_edges_plan(gpio@, *pad, event));
    writes
}

/// Saves the pin's direction (bit 1) and output latch (bit 0).
pub fn op_save(pad: &Pad, gpio: &DwApbGpio) -> (state: u8)
    requires
        pad.wf(),
    ensures
        state == saved_state(gpio@, *pad),
{
    let output: u8 = if gpio.read(port_direction(pad.port)) & pad.mask != 0 {
        2
    } else {
        0
    };
    let high: u8 = if gpio.read(port_data(pad.port)) & pad.mask != 0 {
        1
    } else {
        0
    };
    output | high
}

/// The writes that put back a saved direction and output latch.
pub fn op_restore(
    _cs: critical_section::CriticalSection<'_>,
    gpio: &DwApbGpio,
    pad: &Pad,
    state: u8,
) -> (writes: Plan)
    requires
        pad.wf(),
    ensures
        writes@ == restore_plan(gpio@, *pad, state),
{
    let data = port_data(pad.port);
    let direction = port_direction(pad.port);
    let latch_write = RegisterWrite {
        offset: data,
        value: assign(gpio.read(data), pad.mask, state & 1 != 0),
    };
    let mut writes = Plan::new();
    if state & 2 != 0 {
        writes.push(latch_write);
        writes.push(RegisterWrite { offset: direction, value: gpio.read(direction) | pad.mask });
    } else {
        writes.push(RegisterWrite { offset: direction, value: gpio.read(direction) & !pad.mask });
        writes.push(latch_write);
    }
    assert(writes@ =~= restore_plan(gpio@, *pad, state));
    writes
}

} // verus!
