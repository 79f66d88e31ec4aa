//! Properties that hold of the register plans of every pin.

use vstd::prelude::*;

use crate::eint::Event;
use crate::eint_with_both_edges::EventWithBothEdges;
use crate::ops::{
    assign_bits, clear_interrupt_plan, disable_interrupt_plan, eint_into_output_plan, enable_interrupt_plan,
    event_plan, event_with_both_edges_plan, input_plan, interrupt_pending, into_eint_plan,
    is_output, latch, level, level_plan, output_plan, restore_plan, saved_state, toggle_plan, write_of,
};
use crate::pad::Pad;
use crate::pin_state::PinState;
use crate::registers::{
    apply_writes, control_offset, data_offset, INTERRUPT_CLEAR, INTERRUPT_STATUS, direction_offset,
    external_offset, lemma_apply_five, lemma_apply_four,
    lemma_apply_one, lemma_apply_three, lemma_apply_two, set_word, word_at, RegisterWrite,
    INTERRUPT_BOTH_EDGE,
    INTERRUPT_ENABLE, INTERRUPT_MASK, INTERRUPT_POLARITY, INTERRUPT_TYPE,
};

verus! {

/// The bit of pin `number` in a port register.
pub open spec fn pin_bit(number: u32) -> u32 {
    1u32 << number
}

/// Between the two register states, no bit of another pin than `pad`'s changed.
pub open spec fn only_pin_changed(before: Seq<u32>, after: Seq<u32>, pad: Pad) -> bool {
    &&& after.len() == before.len()
    &&& forall|k: int, j: u32|
        #![trigger after[k], pin_bit(j)]
        0 <= k < before.len() && j < 32 && j != pad.number@ ==> after[k] & pin_bit(j) == before[k]
            & pin_bit(j)
}

/// Setting, clearing or inverting one pin's bit leaves every other pin's bit.
proof fn lemma_other_bits(x: u32, n: u32, j: u32)
    requires
        n < 32,
        j < 32,
        j != n,
    ensures
        (x | pin_bit(n)) & pin_bit(j) == x & pin_bit(j),
        (x & !pin_bit(n)) & pin_bit(j) == x & pin_bit(j),
        (x ^ pin_bit(n)) & pin_bit(j) == x & pin_bit(j),
{
    assert((x | (1u32 << n)) & (1u32 << j) == x & (1u32 << j)) by (bit_vector)
        requires
            n < 32,
            j < 32,
            j != n,
    ;
    assert((x & !(1u32 << n)) & (1u32 << j) == x & (1u32 << j)) by (bit_vector)
        requires
            n < 32,
            j < 32,
            j != n,
    ;
    assert((x ^ (1u32 << n)) & (1u32 << j) == x & (1u32 << j)) by (bit_vector)
        requires
            n < 32,
            j < 32,
            j != n,
    ;
}

/// What setting, clearing or inverting a pin's bit does to that bit.
proof fn lemma_own_bit(x: u32, n: u32)
    requires
        n < 32,
    ensures
        (x | pin_bit(n)) & pin_bit(n) != 0,
        (x & !pin_bit(n)) & pin_bit(n) == 0,
        ((x ^ pin_bit(n)) & pin_bit(n) != 0) == (x & pin_bit(n) == 0),
        (x ^ pin_bit(n)) ^ pin_bit(n) == x,
{
    assert((x | (1u32 << n)) & (1u32 << n) != 0) by (bit_vector)
        requires
            n < 32,
    ;
    assert((x & !(1u32 << n)) & (1u32 << n) == 0) by (bit_vector);
    assert(((x ^ (1u32 << n)) & (1u32 << n) != 0) == (x & (1u32 << n) == 0)) by (bit_vector)
        requires
            n < 32,
    ;
    assert((x ^ (1u32 << n)) ^ (1u32 << n) == x) by (bit_vector);
}

/// A pin's bit after it was assigned.
proof fn lemma_assigned_bit(x: u32, n: u32, on: bool)
    requires
        n < 32,
    ensures
        (assign_bits(x, pin_bit(n), on) & pin_bit(n) != 0) == on,
{
    lemma_own_bit(x, n);
}

/// A register state in which every word either stayed or had only the pin's
/// bit set, cleared or inverted changed no other pin's bit.
proof fn lemma_word_changes_keep_other_pins(before: Seq<u32>, after: Seq<u32>, pad: Pad)
    requires
        pad.wf(),
        after.len() == before.len(),
        forall|k: int|
            0 <= k < before.len() ==> {
                ||| after[k] == before[k]
                ||| after[k] == before[k] | pad.mask
                ||| after[k] == before[k] & !pad.mask
                ||| after[k] == before[k] ^ pad.mask
            },
    ensures
        only_pin_changed(before, after, pad),
{
    assert forall|k: int, j: u32|
        #![trigger after[k], pin_bit(j)]
        0 <= k < before.len() && j < 32 && j != pad.number@ implies after[k] & pin_bit(j)
        == before[k] & pin_bit(j) by {
        lemma_other_bits(before[k], pad.number@, j);
    }
}

/// Every read-modify-write plan of a pin changes the pin's own bits only:
/// the bits of every other pin, in every register, are left as they were.
pub proof fn law_plans_preserve_other_pins(words: Seq<u32>, pad: Pad, state: PinState, saved: u8)
    requires
        pad.wf(),
        words.len() == 30,
    ensures
        only_pin_changed(words, apply_writes(words, level_plan(words, pad, state)), pad),
        only_pin_changed(words, apply_writes(words, toggle_plan(words, pad)), pad),
        only_pin_changed(words, apply_writes(words, input_plan(words, pad)), pad),
        only_pin_changed(words, apply_writes(words, output_plan(words, pad, state)), pad),
        only_pin_changed(words, apply_writes(words, into_eint_plan(words, pad)), pad),
        only_pin_changed(words, apply_writes(words, eint_into_output_plan(words, pad, state)), pad),
        only_pin_changed(words, apply_writes(words, enable_interrupt_plan(words, pad)), pad),
        only_pin_changed(words, apply_writes(words, disable_interrupt_plan(words, pad)), pad),
        only_pin_changed(words, apply_writes(words, restore_plan(words, pad, saved)), pad),
{
    let m = pad.mask;
    let high = state == PinState::High;
    let data = data_offset(pad.port as int);
    let direction = direction_offset(pad.port as int);
    let mask = INTERRUPT_MASK as int;
    let enable = INTERRUPT_ENABLE as int;
    let latch_write = write_of(data, assign_bits(word_at(words, data), m, high));
    let output_write = write_of(direction, word_at(words, direction) | m);
    let input_write = write_of(direction, word_at(words, direction) & !m);
    let mask_write = write_of(mask, word_at(words, mask) | m);
    let disable_write = write_of(enable, word_at(words, enable) & !m);
    lemma_apply_one(words, latch_write);
    lemma_word_changes_keep_other_pins(words, apply_writes(words, level_plan(words, pad, state)), pad);
    lemma_apply_one(words, write_of(data, word_at(words, data) ^ m));
    lemma_word_changes_keep_other_pins(words, apply_writes(words, toggle_plan(words, pad)), pad);
    lemma_apply_one(words, input_write);
    lemma_word_changes_keep_other_pins(words, apply_writes(words, input_plan(words, pad)), pad);
    lemma_apply_two(words, latch_write, output_write);
    lemma_word_changes_keep_other_pins(words, apply_writes(words, output_plan(words, pad, state)), pad);
    lemma_apply_three(words, mask_write, disable_write, input_write);
    lemma_word_changes_keep_other_pins(words, apply_writes(words, into_eint_plan(words, pad)), pad);
    lemma_apply_four(words, mask_write, disable_write, latch_write, output_write);
    lemma_word_changes_keep_other_pins(
        words,
        apply_writes(words, eint_into_output_plan(words, pad, state)),
        pad,
    );
    lemma_apply_two(words, write_of(enable, word_at(words, enable) | m), write_of(mask, word_at(words, mask) & !m));
    lemma_word_changes_keep_other_pins(words, apply_writes(words, enable_interrupt_plan(words, pad)), pad);
    lemma_apply_two(words, mask_write, disable_write);
    lemma_word_changes_keep_other_pins(words, apply_writes(words, disable_interrupt_plan(words, pad)), pad);
    let saved_latch = write_of(data, assign_bits(word_at(words, data), m, saved & 1 != 0));
    lemma_apply_two(words, saved_latch, output_write);
    lemma_apply_two(words, input_write, saved_latch);
    lemma_word_changes_keep_other_pins(words, apply_writes(words, restore_plan(words, pad, saved)), pad);
}

/// Selecting an interrupt event changes the pin's own bits only.
pub proof fn law_events_preserve_other_pins(
    words: Seq<u32>,
    pad: Pad,
    event: Event,
    both: EventWithBothEdges,
)
    requires
        pad.wf(),
        words.len() == 30,
    ensures
        only_pin_changed(words, apply_writes(words, event_plan(words, pad, event)), pad),
        only_pin_changed(
            words,
            apply_writes(words, event_with_both_edges_plan(words, pad, both)),
            pad,
        ),
{
    let m = pad.mask;
    let masked = word_at(words, INTERRUPT_MASK as int);
    let kind = INTERRUPT_TYPE as int;
    let polarity = INTERRUPT_POLARITY as int;
    let both_edge = INTERRUPT_BOTH_EDGE as int;
    lemma_apply_four(
        words,
        write_of(INTERRUPT_MASK as int, masked | m),
        write_of(kind, assign_bits(word_at(words, kind), m, event.is_edge())),
        write_of(polarity, assign_bits(word_at(words, polarity), m, event.is_active_high())),
        write_of(INTERRUPT_MASK as int, masked),
    );
    lemma_word_changes_keep_other_pins(words, apply_writes(words, event_plan(words, pad, event)), pad);
    lemma_apply_five(
        words,
        write_of(INTERRUPT_MASK as int, masked | m),
        write_of(kind, assign_bits(word_at(words, kind), m, both.is_edge())),
        write_of(polarity, assign_bits(word_at(words, polarity), m, both.is_active_high())),
        write_of(both_edge, assign_bits(word_at(words, both_edge), m, both.is_both_edges())),
        write_of(INTERRUPT_MASK as int, masked),
    );
    lemma_word_changes_keep_other_pins(
        words,
        apply_writes(words, event_with_both_edges_plan(words, pad, both)),
        pad,
    );
}

/// Whether the pin's bit is set in the register at a byte offset.
pub open spec fn pin_set(words: Seq<u32>, offset: int, pad: Pad) -> bool {
    word_at(words, offset) & pad.mask != 0
}

/// What a write of the output latch or of the direction leaves behind:
/// the latch reads back the level driven, toggling inverts it and twice
/// leaves every register as it was, and directions read back as set.
pub proof fn law_latch_and_direction_read_back(words: Seq<u32>, pad: Pad, state: PinState)
    requires
        pad.wf(),
        words.len() == 30,
    ensures
        latch(apply_writes(words, level_plan(words, pad, state)), pad) == (state == PinState::High),
        is_output(apply_writes(words, level_plan(words, pad, state)), pad) == is_output(words, pad),
        latch(apply_writes(words, toggle_plan(words, pad)), pad) == !latch(words, pad),
        ({
            let once = apply_writes(words, toggle_plan(words, pad));
            apply_writes(once, toggle_plan(once, pad)) == words
        }),
        !is_output(apply_writes(words, input_plan(words, pad)), pad),
        latch(apply_writes(words, input_plan(words, pad)), pad) == latch(words, pad),
        is_output(apply_writes(words, output_plan(words, pad, state)), pad),
        latch(apply_writes(words, output_plan(words, pad, state)), pad) == (state
            == PinState::High),
{
    let m = pad.mask;
    let n = pad.number@;
    let data = data_offset(pad.port as int);
    let direction = direction_offset(pad.port as int);
    let high = state == PinState::High;
    lemma_own_bit(word_at(words, data), n);
    lemma_own_bit(word_at(words, direction), n);
    lemma_assigned_bit(word_at(words, data), n, high);
    let latch_write = write_of(data, assign_bits(word_at(words, data), m, high));
    lemma_apply_one(words, latch_write);
    let flipped = write_of(data, word_at(words, data) ^ m);
    lemma_apply_one(words, flipped);
    let once = apply_writes(words, toggle_plan(words, pad));
    lemma_apply_one(once, write_of(data, word_at(once, data) ^ m));
    assert(apply_writes(once, toggle_plan(once, pad)) =~= words);
    lemma_apply_one(words, write_of(direction, word_at(words, direction) & !m));
    lemma_apply_two(words, latch_write, write_of(direction, word_at(words, direction) | m));
}

/// What the interrupt plans leave behind on port A: taking a pin for
/// interrupts masks and disables its interrupt and makes it an input;
/// enabling sets the enable bit and clears the mask bit; disabling does the
/// opposite; leaving interrupts for an output masks, disables, and drives.
pub proof fn law_interrupt_configuration(words: Seq<u32>, pad: Pad, state: PinState)
    requires
        pad.wf(),
        pad.port == 0,
        words.len() == 30,
    ensures
        ({
            let after = apply_writes(words, into_eint_plan(words, pad));
            &&& pin_set(after, INTERRUPT_MASK as int, pad)
            &&& !pin_set(after, INTERRUPT_ENABLE as int, pad)
            &&& !is_output(after, pad)
        }),
        ({
            let after = apply_writes(words, enable_interrupt_plan(words, pad));
            &&& !pin_set(after, INTERRUPT_MASK as int, pad)
            &&& pin_set(after, INTERRUPT_ENABLE as int, pad)
        }),
        ({
            let after = apply_writes(words, disable_interrupt_plan(words, pad));
            &&& pin_set(after, INTERRUPT_MASK as int, pad)
            &&& !pin_set(after, INTERRUPT_ENABLE as int, pad)
        }),
        ({
            let after = apply_writes(words, eint_into_output_plan(words, pad, state));
            &&& pin_set(after, INTERRUPT_MASK as int, pad)
            &&& !pin_set(after, INTERRUPT_ENABLE as int, pad)
            &&& is_output(after, pad)
            &&& latch(after, pad) == (state == PinState::High)
        }),
{
    let m = pad.mask;
    let n = pad.number@;
    let data = data_offset(pad.port as int);
    let direction = direction_offset(pad.port as int);
    let mask = INTERRUPT_MASK as int;
    let enable = INTERRUPT_ENABLE as int;
    let high = state == PinState::High;
    lemma_own_bit(word_at(words, mask), n);
    lemma_own_bit(word_at(words, enable), n);
    lemma_own_bit(word_at(words, direction), n);
    lemma_assigned_bit(word_at(words, data), n, high);
    let mask_write = write_of(mask, word_at(words, mask) | m);
    let disable_write = write_of(enable, word_at(words, enable) & !m);
    lemma_apply_three(words, mask_write, disable_write, write_of(direction, word_at(words, direction) & !m));
    lemma_apply_two(words, write_of(enable, word_at(words, enable) | m), write_of(mask, word_at(words, mask) & !m));
    lemma_apply_two(words, mask_write, disable_write);
    lemma_apply_four(
        words,
        mask_write,
        disable_write,
        write_of(data, assign_bits(word_at(words, data), m, high)),
        write_of(direction, word_at(words, direction) | m),
    );
}

/// Selecting an event masks the pin first, leaves the mask register as it
/// was read, sets the type bit for edges and the polarity bit for rising
/// edges and high levels, and, without both-edge detection, never touches
/// the both-edge register; with it, the both-edge bit is set for both edges.
pub proof fn law_event_selection(words: Seq<u32>, pad: Pad, event: Event, both: EventWithBothEdges)
    requires
        pad.wf(),
        words.len() == 30,
    ensures
        ({
            let plan = event_plan(words, pad, event);
            let after = apply_writes(words, plan);
            &&& plan[0].offset == INTERRUPT_MASK && plan[0].value & pad.mask != 0
            &&& word_at(after, INTERRUPT_MASK as int) == word_at(words, INTERRUPT_MASK as int)
            &&& pin_set(after, INTERRUPT_TYPE as int, pad) == event.is_edge()
            &&& pin_set(after, INTERRUPT_POLARITY as int, pad) == event.is_active_high()
            &&& word_at(after, INTERRUPT_BOTH_EDGE as int) == word_at(
                words,
                INTERRUPT_BOTH_EDGE as int,
            )
        }),
        ({
            let plan = event_with_both_edges_plan(words, pad, both);
            let after = apply_writes(words, plan);
            &&& plan[0].offset == INTERRUPT_MASK && plan[0].value & pad.mask != 0
            &&& word_at(after, INTERRUPT_MASK as int) == word_at(words, INTERRUPT_MASK as int)
            &&& pin_set(after, INTERRUPT_TYPE as int, pad) == both.is_edge()
            &&& pin_set(after, INTERRUPT_POLARITY as int, pad) == both.is_active_high()
            &&& pin_set(after, INTERRUPT_BOTH_EDGE as int, pad) == both.is_both_edges()
        }),
{
    let m = pad.mask;
    let n = pad.number@;
    let masked = word_at(words, INTERRUPT_MASK as int);
    let kind = INTERRUPT_TYPE as int;
    let polarity = INTERRUPT_POLARITY as int;
    let both_edge = INTERRUPT_BOTH_EDGE as int;
    lemma_own_bit(masked, n);
    lemma_assigned_bit(word_at(words, kind), n, event.is_edge());
    lemma_assigned_bit(word_at(words, polarity), n, event.is_active_high());
    lemma_assigned_bit(word_at(words, kind), n, both.is_edge());
    lemma_assigned_bit(word_at(words, polarity), n, both.is_active_high());
    lemma_assigned_bit(word_at(words, both_edge), n, both.is_both_edges());
    lemma_apply_four(
        words,
        write_of(INTERRUPT_MASK as int, masked | m),
        write_of(kind, assign_bits(word_at(words, kind), m, event.is_edge())),
        write_of(polarity, assign_bits(word_at(words, polarity), m, event.is_active_high())),
        write_of(INTERRUPT_MASK as int, masked),
    );
    lemma_apply_five(
        words,
        write_of(INTERRUPT_MASK as int, masked | m),
        write_of(kind, assign_bits(word_at(words, kind), m, both.is_edge())),
        write_of(polarity, assign_bits(word_at(words, polarity), m, both.is_active_high())),
        write_of(both_edge, assign_bits(word_at(words, both_edge), m, both.is_both_edges())),
        write_of(INTERRUPT_MASK as int, masked),
    );
}

/// Saving a pin and restoring it later puts back its direction and output
/// latch as they were when saved, whatever happened in between, and leaves
/// every other pin's bits as they are at the time of the restore.
pub proof fn law_save_restore_round_trip(before: Seq<u32>, later: Seq<u32>, pad: Pad)
    requires
        pad.wf(),
        before.len() == 30,
        later.len() == 30,
    ensures
        ({
            let after = apply_writes(later, restore_plan(later, pad, saved_state(before, pad)));
            &&& is_output(after, pad) == is_output(before, pad)
            &&& latch(after, pad) == latch(before, pad)
            &&& only_pin_changed(later, after, pad)
        }),
{
    let m = pad.mask;
    let n = pad.number@;
    let data = data_offset(pad.port as int);
    let direction = direction_offset(pad.port as int);
    let saved = saved_state(before, pad);
    let out = is_output(before, pad);
    let high = latch(before, pad);
    assert(saved & 2 != 0 <==> out) by {
        assert(((2u8 | 1u8) & 2u8 != 0) && ((2u8 | 0u8) & 2u8 != 0)) by (bit_vector);
        assert(((0u8 | 1u8) & 2u8 == 0) && ((0u8 | 0u8) & 2u8 == 0)) by (bit_vector);
    }
    assert(saved & 1 != 0 <==> high) by {
        assert(((2u8 | 1u8) & 1u8 != 0) && ((0u8 | 1u8) & 1u8 != 0)) by (bit_vector);
        assert(((2u8 | 0u8) & 1u8 == 0) && ((0u8 | 0u8) & 1u8 == 0)) by (bit_vector);
    }
    lemma_own_bit(word_at(later, direction), n);
    lemma_assigned_bit(word_at(later, data), n, high);
    let latch_write = write_of(data, assign_bits(word_at(later, data), m, saved & 1 != 0));
    lemma_apply_two(later, latch_write, write_of(direction, word_at(later, direction) | m));
    lemma_apply_two(later, write_of(direction, word_at(later, direction) & !m), latch_write);
    law_plans_preserve_other_pins(later, pad, PinState::Low, saved);
}

/// Clearing a pin's interrupt writes the pin's bit, and no other pin's bit,
/// to the write-one-to-clear register, and touches no other register.
pub proof fn law_clear_interrupt_writes_only_pin(words: Seq<u32>, pad: Pad)
    requires
        pad.wf(),
        words.len() == 30,
    ensures
        apply_writes(words, clear_interrupt_plan(pad)) == set_word(
            words,
            INTERRUPT_CLEAR as int,
            pad.mask,
        ),
        pad.mask & pin_bit(pad.number@) != 0,
        forall|j: u32| j < 32 && j != pad.number@ ==> #[trigger] (pad.mask & pin_bit(j)) == 0,
{
    lemma_apply_one(words, write_of(INTERRUPT_CLEAR as int, pad.mask));
    let n = pad.number@;
    assert((1u32 << n) & (1u32 << n) != 0) by (bit_vector)
        requires
            n < 32,
    ;
    assert forall|j: u32| j < 32 && j != n implies #[trigger] (pad.mask & pin_bit(j)) == 0 by {
        assert((1u32 << n) & (1u32 << j) == 0) by (bit_vector)
            requires
                n < 32,
                j < 32,
                j != n,
        ;
    }
}

/// Changing a pin's level or direction never writes its port's data source
/// register: whether the pin is under software or hardware control belongs
/// to the integration.
pub proof fn law_direction_changes_leave_control(words: Seq<u32>, pad: Pad, state: PinState)
    requires
        pad.wf(),
        words.len() == 30,
    ensures
        ({
            let control = control_offset(pad.port as int);
            &&& word_at(apply_writes(words, level_plan(words, pad, state)), control) == word_at(
                words,
                control,
            )
            &&& word_at(apply_writes(words, toggle_plan(words, pad)), control) == word_at(
                words,
                control,
            )
            &&& word_at(apply_writes(words, input_plan(words, pad)), control) == word_at(
                words,
                control,
            )
            &&& word_at(apply_writes(words, output_plan(words, pad, state)), control) == word_at(
                words,
                control,
            )
        }),
{
    let m = pad.mask;
    let data = data_offset(pad.port as int);
    let direction = direction_offset(pad.port as int);
    let latch_write = write_of(data, assign_bits(word_at(words, data), m, state == PinState::High));
    lemma_apply_one(words, latch_write);
    lemma_apply_one(words, write_of(data, word_at(words, data) ^ m));
    lemma_apply_one(words, write_of(direction, word_at(words, direction) & !m));
    lemma_apply_two(words, latch_write, write_of(direction, word_at(words, direction) | m));
}

/// Two register states hold the same bit of `pad`'s pin in every register.
pub open spec fn same_pin_bits(a: Seq<u32>, b: Seq<u32>, pad: Pad) -> bool {
    &&& a.len() == b.len()
    &&& forall|k: int|
        0 <= k < a.len() ==> #[trigger] (a[k] & pin_bit(pad.number@)) == b[k] & pin_bit(pad.number@)
}

/// What a pin reads depends on its own bits alone: the external level, the
/// output latch, the direction, the pending interrupt and the saved state are
/// the same in two register states that differ only in other pins' bits.
pub proof fn law_reads_see_only_the_pin(a: Seq<u32>, b: Seq<u32>, pad: Pad)
    requires
        pad.wf(),
        a.len() == 30,
        same_pin_bits(a, b, pad),
    ensures
        level(a, pad) == level(b, pad),
        latch(a, pad) == latch(b, pad),
        is_output(a, pad) == is_output(b, pad),
        interrupt_pending(a, pad) == interrupt_pending(b, pad),
        saved_state(a, pad) == saved_state(b, pad),
{
    let n = pad.number@;
    let p = pad.port as int;
    assert(a[external_offset(p) / 4] & pin_bit(n) == b[external_offset(p) / 4] & pin_bit(n));
    assert(a[data_offset(p) / 4] & pin_bit(n) == b[data_offset(p) / 4] & pin_bit(n));
    assert(a[direction_offset(p) / 4] & pin_bit(n) == b[direction_offset(p) / 4] & pin_bit(n));
    assert(a[INTERRUPT_STATUS as int / 4] & pin_bit(n) == b[INTERRUPT_STATUS as int / 4] & pin_bit(
        n,
    ));
}

/// A pin reads high exactly when its own bit is set: with the pin's bit set in
/// a register, whatever the other bits, the pin reads high from it, and with
/// the bit cleared it reads low.
pub proof fn law_reads_follow_the_pin_bit(words: Seq<u32>, pad: Pad, x: u32)
    requires
        pad.wf(),
        words.len() == 30,
    ensures
        level(set_word(words, external_offset(pad.port as int), x | pin_bit(pad.number@)), pad),
        !level(set_word(words, external_offset(pad.port as int), x & !pin_bit(pad.number@)), pad),
        latch(set_word(words, data_offset(pad.port as int), x | pin_bit(pad.number@)), pad),
        !latch(set_word(words, data_offset(pad.port as int), x & !pin_bit(pad.number@)), pad),
        is_output(set_word(words, direction_offset(pad.port as int), x | pin_bit(pad.number@)), pad),
        !is_output(
            set_word(words, direction_offset(pad.port as int), x & !pin_bit(pad.number@)),
            pad,
        ),
        interrupt_pending(set_word(words, INTERRUPT_STATUS as int, x | pin_bit(pad.number@)), pad),
        !interrupt_pending(set_word(words, INTERRUPT_STATUS as int, x & !pin_bit(pad.number@)), pad),
{
    lemma_own_bit(x, pad.number@);
}

/// Whether the pin is an output, read from its direction bit.
pub open spec fn drives(words: Seq<u32>, pad: Pad) -> bool {
    word_at(words, direction_offset(pad.port as int)) & pin_bit(pad.number@) != 0
}

/// Whether the pin's output latch bit is set.
pub open spec fn latch_bit(words: Seq<u32>, pad: Pad) -> bool {
    word_at(words, data_offset(pad.port as int)) & pin_bit(pad.number@) != 0
}

/// Whether the pin's interrupt mask bit is set.
pub open spec fn masked(words: Seq<u32>, pad: Pad) -> bool {
    word_at(words, INTERRUPT_MASK as int) & pin_bit(pad.number@) != 0
}

/// The register state after the first `i` writes of a plan.
pub open spec fn after_prefix(words: Seq<u32>, plan: Seq<RegisterWrite>, i: int) -> Seq<u32> {
    apply_writes(words, plan.take(i))
}

/// An input made an output never drives a level other than the requested
/// one: at every point of the output plan, and of the plan that leaves
/// interrupt mode for an output, the pin, once it drives, drives `state`.
/// Both plans end with the pin driving `state`.
pub proof fn law_outputs_start_at_the_requested_level(words: Seq<u32>, pad: Pad, state: PinState)
    requires
        pad.wf(),
        words.len() == 30,
        !drives(words, pad),
    ensures
        forall|i: int|
            0 <= i <= output_plan(words, pad, state).len() && #[trigger] drives(
                after_prefix(words, output_plan(words, pad, state), i),
                pad,
            ) ==> latch_bit(after_prefix(words, output_plan(words, pad, state), i), pad) == (state
                == PinState::High),
        forall|i: int|
            0 <= i <= eint_into_output_plan(words, pad, state).len() && #[trigger] drives(
                after_prefix(words, eint_into_output_plan(words, pad, state), i),
                pad,
            ) ==> latch_bit(after_prefix(words, eint_into_output_plan(words, pad, state), i), pad)
                == (state == PinState::High),
        drives(after_prefix(words, output_plan(words, pad, state), 2), pad),
        drives(after_prefix(words, eint_into_output_plan(words, pad, state), 4), pad),
{
    let m = pad.mask;
    let n = pad.number@;
    let high = state == PinState::High;
    let data = data_offset(pad.port as int);
    let direction = direction_offset(pad.port as int);
    let mask = INTERRUPT_MASK as int;
    let enable = INTERRUPT_ENABLE as int;
    let latch_write = write_of(data, assign_bits(word_at(words, data), m, high));
    let output_write = write_of(direction, word_at(words, direction) | m);
    let mask_write = write_of(mask, word_at(words, mask) | m);
    let disable_write = write_of(enable, word_at(words, enable) & !m);
    lemma_assigned_bit(word_at(words, data), n, high);
    lemma_own_bit(word_at(words, direction), n);
    let out = output_plan(words, pad, state);
    assert(out.take(0) =~= Seq::<RegisterWrite>::empty());
    assert(out.take(1) =~= seq![latch_write]);
    assert(out.take(2) =~= out);
    lemma_apply_one(words, latch_write);
    lemma_apply_two(words, latch_write, output_write);
    let leave = eint_into_output_plan(words, pad, state);
    assert(leave.take(0) =~= Seq::<RegisterWrite>::empty());
    assert(leave.take(1) =~= seq![mask_write]);
    assert(leave.take(2) =~= seq![mask_write, disable_write]);
    assert(leave.take(3) =~= seq![mask_write, disable_write, latch_write]);
    assert(leave.take(4) =~= leave);
    lemma_apply_one(words, mask_write);
    lemma_apply_two(words, mask_write, disable_write);
    lemma_apply_three(words, mask_write, disable_write, latch_write);
    lemma_apply_four(words, mask_write, disable_write, latch_write, output_write);
}

/// Restoring a pin never drives a level that was not saved: a pin saved as
/// an input is an input after the restore's first write and stays one; a pin
/// saved as an output drives, from the first write on, only the saved latch.
pub proof fn law_restore_drives_only_the_saved_level(words: Seq<u32>, pad: Pad, saved: u8)
    requires
        pad.wf(),
        words.len() == 30,
    ensures
        forall|i: int|
            1 <= i <= restore_plan(words, pad, saved).len() && #[trigger] drives(
                after_prefix(words, restore_plan(words, pad, saved), i),
                pad,
            ) ==> saved & 2 != 0 && latch_bit(after_prefix(words, restore_plan(words, pad, saved), i), pad)
                == (saved & 1 != 0),
{
    let m = pad.mask;
    let n = pad.number@;
    let data = data_offset(pad.port as int);
    let direction = direction_offset(pad.port as int);
    let latch_write = write_of(data, assign_bits(word_at(words, data), m, saved & 1 != 0));
    let output_write = write_of(direction, word_at(words, direction) | m);
    let input_write = write_of(direction, word_at(words, direction) & !m);
    lemma_assigned_bit(word_at(words, data), n, saved & 1 != 0);
    lemma_own_bit(word_at(words, direction), n);
    let plan = restore_plan(words, pad, saved);
    if saved & 2 != 0 {
        assert(plan.take(1) =~= seq![latch_write]);
        assert(plan.take(2) =~= plan);
        lemma_apply_one(words, latch_write);
        lemma_apply_two(words, latch_write, output_write);
    } else {
        assert(plan.take(1) =~= seq![input_write]);
        assert(plan.take(2) =~= plan);
        lemma_apply_one(words, input_write);
        lemma_apply_two(words, input_write, latch_write);
    }
}

/// The interrupt plans keep the pin masked while they change it: from the
/// first write on, taking the pin for interrupts, disabling its interrupt and
/// leaving interrupt mode for an output leave the pin masked; selecting an
/// event leaves it masked at every write but the last, which puts the mask
/// register back as it was read.
pub proof fn law_interrupt_changes_happen_masked(
    words: Seq<u32>,
    pad: Pad,
    state: PinState,
    event: Event,
    both: EventWithBothEdges,
)
    requires
        pad.wf(),
        words.len() == 30,
    ensures
        forall|i: int|
            1 <= i <= into_eint_plan(words, pad).len() ==> #[trigger] masked(
                after_prefix(words, into_eint_plan(words, pad), i),
                pad,
            ),
        forall|i: int|
            1 <= i <= disable_interrupt_plan(words, pad).len() ==> #[trigger] masked(
                after_prefix(words, disable_interrupt_plan(words, pad), i),
                pad,
            ),
        forall|i: int|
            1 <= i <= eint_into_output_plan(words, pad, state).len() ==> #[trigger] masked(
                after_prefix(words, eint_into_output_plan(words, pad, state), i),
                pad,
            ),
        forall|i: int|
            1 <= i < event_plan(words, pad, event).len() ==> #[trigger] masked(
                after_prefix(words, event_plan(words, pad, event), i),
                pad,
            ),
        forall|i: int|
            1 <= i < event_with_both_edges_plan(words, pad, both).len() ==> #[trigger] masked(
                after_prefix(words, event_with_both_edges_plan(words, pad, both), i),
                pad,
            ),
        word_at(apply_writes(words, event_plan(words, pad, event)), INTERRUPT_MASK as int)
            == word_at(words, INTERRUPT_MASK as int),
        word_at(
            apply_writes(words, event_with_both_edges_plan(words, pad, both)),
            INTERRUPT_MASK as int,
        ) == word_at(words, INTERRUPT_MASK as int),
{
    let m = pad.mask;
    let n = pad.number@;
    let high = state == PinState::High;
    let data = data_offset(pad.port as int);
    let direction = direction_offset(pad.port as int);
    let mask = INTERRUPT_MASK as int;
    let enable = INTERRUPT_ENABLE as int;
    let masked_word = word_at(words, mask);
    lemma_own_bit(masked_word, n);
    let mask_write = write_of(mask, masked_word | m);
    let disable_write = write_of(enable, word_at(words, enable) & !m);
    let input_write = write_of(direction, word_at(words, direction) & !m);
    let latch_write = write_of(data, assign_bits(word_at(words, data), m, high));
    let output_write = write_of(direction, word_at(words, direction) | m);

    let take_eint = into_eint_plan(words, pad);
    assert(take_eint.take(1) =~= seq![mask_write]);
    assert(take_eint.take(2) =~= seq![mask_write, disable_write]);
    assert(take_eint.take(3) =~= take_eint);
    lemma_apply_one(words, mask_write);
    lemma_apply_two(words, mask_write, disable_write);
    lemma_apply_three(words, mask_write, disable_write, input_write);

    let disable = disable_interrupt_plan(words, pad);
    assert(disable.take(1) =~= seq![mask_write]);
    assert(disable.take(2) =~= disable);

    let leave = eint_into_output_plan(words, pad, state);
    assert(leave.take(1) =~= seq![mask_write]);
    assert(leave.take(2) =~= seq![mask_write, disable_write]);
    assert(leave.take(3) =~= seq![mask_write, disable_write, latch_write]);
    assert(leave.take(4) =~= leave);
    lemma_apply_three(words, mask_write, disable_write, latch_write);
    lemma_apply_four(words, mask_write, disable_write, latch_write, output_write);

    let kind = INTERRUPT_TYPE as int;
    let polarity = INTERRUPT_POLARITY as int;
    let both_edge = INTERRUPT_BOTH_EDGE as int;
    let restore_mask = write_of(mask, masked_word);
    let kind_write = write_of(kind, assign_bits(word_at(words, kind), m, event.is_edge()));
    let polarity_write = write_of(
        polarity,
        assign_bits(word_at(words, polarity), m, event.is_active_high()),
    );
    let select = event_plan(words, pad, event);
    assert(select.take(1) =~= seq![mask_write]);
    assert(select.take(2) =~= seq![mask_write, kind_write]);
    assert(select.take(3) =~= seq![mask_write, kind_write, polarity_write]);
    assert(select.take(4) =~= select);
    lemma_apply_two(words, mask_write, kind_write);
    lemma_apply_three(words, mask_write, kind_write, polarity_write);
    lemma_apply_four(words, mask_write, kind_write, polarity_write, restore_mask);

    let both_kind = write_of(kind, assign_bits(word_at(words, kind), m, both.is_edge()));
    let both_polarity = write_of(
        polarity,
        assign_bits(word_at(words, polarity), m, both.is_active_high()),
    );
    let both_write = write_of(
        both_edge,
        assign_bits(word_at(words, both_edge), m, both.is_both_edges()),
    );
    let select_both = event_with_both_edges_plan(words, pad, both);
    assert(select_both.take(1) =~= seq![mask_write]);
    assert(select_both.take(2) =~= seq![mask_write, both_kind]);
    assert(select_both.take(3) =~= seq![mask_write, both_kind, both_polarity]);
    assert(select_both.take(4) =~= seq![mask_write, both_kind, both_polarity, both_write]);
    assert(select_both.take(5) =~= select_both);
    lemma_apply_two(words, mask_write, both_kind);
    lemma_apply_three(words, mask_write, both_kind, both_polarity);
    lemma_apply_four(words, mask_write, both_kind, both_polarity, both_write);
    lemma_apply_five(words, mask_write, both_kind, both_polarity, both_write, restore_mask);
}

/// Enabling a pin's interrupt unmasks it last: before the final write the
/// pin's mask bit is as it was, and the enable bit is already set.
pub proof fn law_enable_unmasks_last(words: Seq<u32>, pad: Pad)
    requires
        pad.wf(),
        words.len() == 30,
    ensures
        forall|i: int|
            0 <= i < enable_interrupt_plan(words, pad).len() ==> #[trigger] masked(
                after_prefix(words, enable_interrupt_plan(words, pad), i),
                pad,
            ) == masked(words, pad),
        word_at(after_prefix(words, enable_interrupt_plan(words, pad), 1), INTERRUPT_ENABLE as int)
            & pin_bit(pad.number@) != 0,
        !masked(apply_writes(words, enable_interrupt_plan(words, pad)), pad),
{
    let m = pad.mask;
    let n = pad.number@;
    let mask = INTERRUPT_MASK as int;
    let enable = INTERRUPT_ENABLE as int;
    lemma_own_bit(word_at(words, enable), n);
    lemma_own_bit(word_at(words, mask), n);
    let enable_write = write_of(enable, word_at(words, enable) | m);
    let unmask_write = write_of(mask, word_at(words, mask) & !m);
    let plan = enable_interrupt_plan(words, pad);
    assert(plan.take(0) =~= Seq::<RegisterWrite>::empty());
    assert(plan.take(1) =~= seq![enable_write]);
    assert(plan.take(2) =~= plan);
    lemma_apply_one(words, enable_write);
    lemma_apply_two(words, enable_write, unmask_write);
}

} // verus!
