//! One pin of the block: its port and its bit.

use vstd::prelude::*;

use crate::critical::with_critical_section;
use crate::eint::Event;
use crate::eint_with_both_edges::EventWithBothEdges;
use crate::ops;
use crate::pin_state::PinState;
use crate::registers::{apply_writes, DwApbGpio};

verus! {

/// A pin: the index of its port (A is 0) and the bit it owns in each port register.
#[derive(Clone, Copy)]
pub struct Pad {
    /// Port index, 0 for port A to 3 for port D.
    pub port: u8,
    /// The pin's bit in the port's registers.
    pub mask: u32,
    /// The pin's number within the port.
    pub number: Ghost<u32>,
}

impl Pad {
    /// The pin exists: a port A to D and a bit inside the 32-bit registers.
    pub open spec fn wf(self) -> bool {
        &&& self.port < 4
        &&& self.number@ < 32
        &&& self.mask == 1u32 << self.number@
    }

    /// The pin `number` of port `port` (`'A'` to `'D'`).
    pub fn new(port: char, number: u8) -> (pad: Pad)
        requires
            'A' <= port <= 'D',
            number < 32,
        ensures
            pad.wf(),
            pad.port == port as int - 'A' as int,
            pad.number@ == number,
    {
        let index = (port as u32 - 'A' as u32) as u8;
        Pad { port: index, mask: 1u32 << number as u32, number: Ghost(number as u32) }
    }

    /// The same pin, borrowed for a shorter time.
    pub fn reborrow(&self) -> (pad: Pad)
        ensures
            pad == *self,
    {
        Pad { port: self.port, mask: self.mask, number: self.number }
    }

    /// Drives the output latch to `state`.
    pub fn set_level(&self, gpio: &mut DwApbGpio, state: PinState)
        requires
            self.wf(),
        ensures
            final(gpio)@ == apply_writes(old(gpio)@, ops::level_plan(old(gpio)@, *self, state)),
    {
        let pad = *self;
        let words = *gpio;
        *gpio = with_critical_section(
            (move |cs| -> (after: DwApbGpio)
                ensures
                    after@ == apply_writes(words@, ops::level_plan(words@, pad, state)),
                {
                    let writes = ops::op_set_level(cs, &words, &pad, state);
                    proof { ops::lemma_plans_valid(words@, pad, state); }
                    let mut after = words;
                    after.perform(&writes);
                    after
                }),
        );
    }

    /// Inverts the output latch.
    pub fn toggle(&self, gpio: &mut DwApbGpio)
        requires
            self.wf(),
        ensures
            final(gpio)@ == apply_writes(old(gpio)@, ops::toggle_plan(old(gpio)@, *self)),
    {
        let pad = *self;
        let words = *gpio;
        *gpio = with_critical_section(
            (move |cs| -> (after: DwApbGpio)
                ensures
                    after@ == apply_writes(words@, ops::toggle_plan(words@, pad)),
                {
                    let writes = ops::op_toggle(cs, &words, &pad);
                    proof { ops::lemma_plans_valid(words@, pad, PinState::Low); }
                    let mut after = words;
                    after.perform(&writes);
                    after
                }),
        );
    }

    /// Makes the pin an input.
    pub fn set_input(&self, gpio: &mut DwApbGpio)
        requires
            self.wf(),
        ensures
            final(gpio)@ == apply_writes(old(gpio)@, ops::input_plan(old(gpio)@, *self)),
    {
        let pad = *self;
        let words = *gpio;
        *gpio = with_critical_section(
            (move |cs| -> (after: DwApbGpio)
                ensures
                    after@ == apply_writes(words@, ops::input_plan(words@, pad)),
                {
                    let writes = ops::op_set_input(cs, &words, &pad);
                    proof { ops::lemma_plans_valid(words@, pad, PinState::Low); }
                    let mut after = words;
                    after.perform(&writes);
                    after
                }),
        );
    }

    /// Makes the pin an output driving `state`.
    pub fn set_output(&self, gpio: &mut DwApbGpio, state: PinState)
        requires
            self.wf(),
        ensures
            final(gpio)@ == apply_writes(old(gpio)@, ops::output_plan(old(gpio)@, *self, state)),
    {
        let pad = *self;
        let words = *gpio;
        *gpio = with_critical_section(
            (move |cs| -> (after: DwApbGpio)
                ensures
                    after@ == apply_writes(words@, ops::output_plan(words@, pad, state)),
                {
                    let writes = ops::op_set_output(cs, &words, &pad, state);
                    proof { ops::lemma_plans_valid(words@, pad, state); }
                    let mut after = words;
                    after.perform(&writes);
                    after
                }),
        );
    }

    /// Masks and disables the pin's interrupt and makes it an input.
    pub fn into_eint(&self, gpio: &mut DwApbGpio)
        requires
            self.wf(),
            self.port == 0,
        ensures
            final(gpio)@ == apply_writes(old(gpio)@, ops::into_eint_plan(old(gpio)@, *self)),
    {
        let pad = *self;
        let words = *gpio;
        *gpio = with_critical_section(
            (move |cs| -> (after: DwApbGpio)
                ensures
                    after@ == apply_writes(words@, ops::into_eint_plan(words@, pad)),
                {
                    let writes = ops::op_into_eint(cs, &words, &pad);
                    proof { ops::lemma_plans_valid(words@, pad, PinState::Low); }
                    let mut after = words;
                    after.perform(&writes);
                    after
                }),
        );
    }

    /// Masks and disables the pin's interrupt and makes it an output driving `state`.
    pub fn eint_into_output(&self, gpio: &mut DwApbGpio, state: PinState)
        requires
            self.wf(),
        ensures
            final(gpio)@ == apply_writes(old(gpio)@, ops::eint_into_output_plan(old(gpio)@, *self, state)),
    {
        let pad = *self;
        let words = *gpio;
        *gpio = with_critical_section(
            (move |cs| -> (after: DwApbGpio)
                ensures
                    after@ == apply_writes(words@, ops::eint_into_output_plan(words@, pad, state)),
                {
                    let writes = ops::op_eint_into_output(cs, &words, &pad, state);
                    proof { ops::lemma_plans_valid(words@, pad, state); }
                    let mut after = words;
                    after.perform(&writes);
                    after
                }),
        );
    }

    /// Enables and unmasks the pin's interrupt.
    pub fn enable_interrupt(&self, gpio: &mut DwApbGpio)
        requires
            self.wf(),
        ensures
            final(gpio)@ == apply_writes(old(gpio)@, ops::enable_interrupt_plan(old(gpio)@, *self)),
    {
        let pad = *self;
        let words = *gpio;
        *gpio = with_critical_section(
            (move |cs| -> (after: DwApbGpio)
                ensures
                    after@ == apply_writes(words@, ops::enable_interrupt_plan(words@, pad)),
                {
                    let writes = ops::op_enable_interrupt(cs, &words, &pad);
                    proof { ops::lemma_plans_valid(words@, pad, PinState::Low); }
                    let mut after = words;
                    after.perform(&writes);
                    after
                }),
        );
    }

    /// Masks and disables the pin's interrupt.
    pub fn disable_interrupt(&self, gpio: &mut DwApbGpio)
        requires
            self.wf(),
        ensures
            final(gpio)@ == apply_writes(old(gpio)@, ops::disable_interrupt_plan(old(gpio)@, *self)),
    {
        let pad = *self;
        let words = *gpio;
        *gpio = with_critical_section(
            (move |cs| -> (after: DwApbGpio)
                ensures
                    after@ == apply_writes(words@, ops::disable_interrupt_plan(words@, pad)),
                {
                    let writes = ops::op_disable_interrupt(cs, &words, &pad);
                    proof { ops::lemma_plans_valid(words@, pad, PinState::Low); }
                    let mut after = words;
                    after.perform(&writes);
                    after
                }),
        );
    }

    /// Selects a single-edge or level interrupt event.
    pub fn set_event(&self, gpio: &mut DwApbGpio, event: Event)
        requires
            self.wf(),
        ensures
            final(gpio)@ == apply_writes(old(gpio)@, ops::event_plan(old(gpio)@, *self, event)),
    {
        let pad = *self;
        let words = *gpio;
        *gpio = with_critical_section(
            (move |cs| -> (after: DwApbGpio)
                ensures
                    after@ == apply_writes(words@, ops::event_plan(words@, pad, event)),
                {
                    let writes = ops::op_set_event(cs, &words, &pad, event);
                    proof { ops::lemma_event_plans_valid(words@, pad, event, EventWithBothEdges::LowLevel); }
                    let mut after = words;
                    after.perform(&writes);
                    after
                }),
        );
    }

    /// Selects an interrupt event, both-edge detection included.
    pub fn set_event_with_both_edges(&self, gpio: &mut DwApbGpio, event: EventWithBothEdges)
        requires
            self.wf(),
        ensures
            final(gpio)@ == apply_writes(old(gpio)@, ops::event_with_both_edges_plan(old(gpio)@, *self, event)),
    {
        let pad = *self;
        let words = *gpio;
        *gpio = with_critical_section(
            (move |cs| -> (after: DwApbGpio)
                ensures
                    after@ == apply_writes(words@, ops::event_with_both_edges_plan(words@, pad, event)),
                {
                    let writes = ops::op_set_event_with_both_edges(cs, &words, &pad, event);
                    proof { ops::lemma_event_plans_valid(words@, pad, Event::LowLevel, event); }
                    let mut after = words;
                    after.perform(&writes);
                    after
                }),
        );
    }

    /// Clears the pin's pending edge interrupt; an active level interrupt remains pending.
    pub fn clear_interrupt(&self, gpio: &mut DwApbGpio)
        requires
            self.wf(),
        ensures
            final(gpio)@ == apply_writes(old(gpio)@, ops::clear_interrupt_plan(*self)),
    {
        let writes = ops::op_clear_interrupt(self);
        proof { ops::lemma_plans_valid(gpio@, *self, PinState::Low); }
        gpio.perform(&writes);
    }
}

/// The direction and output latch of a pin, to be put back later.
pub struct Restore {
    pad: Pad,
    /// Bit 1 is output direction; bit 0 is a high output latch.
    state: u8,
}

impl Restore {
    /// The pin that is restored.
    pub closed spec fn pad(self) -> Pad {
        self.pad
    }

    /// The saved direction and latch, as `ops::op_save` encodes them.
    pub closed spec fn state(self) -> u8 {
        self.state
    }

    /// Saves the pin's direction and output latch.
    pub fn new(pad: &Pad, gpio: &DwApbGpio) -> (restore: Restore)
        requires
            pad.wf(),
        ensures
            restore.pad() == *pad,
            restore.state() == ops::saved_state(gpio@, *pad),
    {
        let state = ops::op_save(pad, gpio);
        Restore { pad: *pad, state }
    }

    /// Puts the saved direction and output latch back, in a critical section.
    pub fn restore(self, gpio: &mut DwApbGpio)
        requires
            self.pad().wf(),
        ensures
            final(gpio)@ == apply_writes(old(gpio)@, ops::restore_plan(old(gpio)@, self.pad(), self.state())),
    {
        let pad = self.pad;
        let state = self.state;
        let words = *gpio;
        *gpio = with_critical_section(
            (move |cs| -> (after: DwApbGpio)
                ensures
                    after@ == apply_writes(words@, ops::restore_plan(words@, pad, state)),
                {
                    let writes = ops::op_restore(cs, &words, &pad, state);
                    proof { ops::lemma_restore_plan_valid(words@, pad, state); }
                    let mut after = words;
                    after.perform(&writes);
                    after
                }),
        );
    }
}

} // verus!
