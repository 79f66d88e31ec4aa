use dw_apb_gpio::ops::{
    op_reads, op_restore, op_save, op_set_event, op_set_event_with_both_edges, Operation,
};
use dw_apb_gpio::pad::{Pad, Restore};
use dw_apb_gpio::registers::{
    port_data, port_direction, port_external, Plan, RegisterWrite, INTERRUPT_BOTH_EDGE,
    INTERRUPT_ENABLE, INTERRUPT_MASK, INTERRUPT_STATUS, INTERRUPT_POLARITY, INTERRUPT_TYPE,
};
use dw_apb_gpio::{DwApbGpio, Event, EventWithBothEdges, FlexPad, Input, Output, PinState};

#[test]
fn temporary_output_restores_direction_and_latch_on_return() {
    let mut mock = DwApbGpio::new();
    let mut input = Input::new('C', 2, &mut mock);
    let mut neighbour = Output::new('C', 3, &mut mock, PinState::Low);
    let result = input.with_output(&mut mock, PinState::High, |output, gpio| {
        assert_eq!(gpio.read(0x1c), (1 << 2) | (1 << 3));
        assert!(output.is_set_high(gpio));
        neighbour.set_high(gpio);
        42
    });
    assert_eq!(result, 42);
    assert_eq!(mock.read(0x1c), 1 << 3);
    assert_eq!(mock.read(0x18), 1 << 3);
    let result = neighbour.with_input(&mut mock, |_, gpio| {
        assert_eq!(gpio.read(0x1c), 0);
        7
    });
    assert_eq!(result, 7);
    assert_eq!(mock.read(0x1c), 1 << 3);
    assert!(neighbour.is_set_high(&mock));
}

#[test]
fn temporary_modes_restore_both_latch_levels_on_return() {
    let owned = 1u32 << 31;
    let adjacent = 1u32 << 7;
    for initial in [PinState::Low, PinState::High] {
        let mut mock = DwApbGpio::new();
        let mut output = Output::new('B', 31, &mut mock, initial);
        let mut neighbour = Output::new('B', 7, &mut mock, PinState::Low);
        let expected = if initial == PinState::High { owned } else { 0 };
        let value = output.with_input(&mut mock, |_, gpio| {
            assert_eq!(gpio.read(0x10) & owned, 0);
            neighbour.set_high(gpio);
            42
        });
        assert_eq!(value, 42);
        assert_eq!(mock.read(0x10), owned | adjacent);
        assert_eq!(mock.read(0x0c), expected | adjacent);

        let mut input = output.into_input(&mut mock);
        let temporary = if initial == PinState::High { PinState::Low } else { PinState::High };
        let value = input.with_output(&mut mock, temporary, |pin, gpio| {
            assert_eq!(gpio.read(0x10) & owned, owned);
            assert_eq!(pin.is_set_high(gpio), temporary == PinState::High);
            neighbour.set_low(gpio);
            24
        });
        assert_eq!(value, 24);
        assert_eq!(mock.read(0x10), adjacent);
        assert_eq!(mock.read(0x0c), expected);
    }
}

#[test]
fn save_and_restore_round_trip_keeps_later_neighbour_changes() {
    let mut mock = DwApbGpio::new();
    let pad = Pad::new('D', 4);
    pad.set_output(&mut mock, PinState::High);
    assert_eq!(op_save(&pad, &mock), 3);
    let restore = Restore::new(&pad, &mock);
    pad.set_input(&mut mock);
    pad.set_level(&mut mock, PinState::Low);
    mock.write(0x24, 0xffff_0000);
    mock.write(0x28, 0x0000_ffff & !(1 << 4));
    restore.restore(&mut mock);
    assert_eq!(mock.read(0x24), 0xffff_0000 | (1 << 4));
    assert_eq!(mock.read(0x28), 0x0000_ffff);
    pad.set_input(&mut mock);
    assert_eq!(op_save(&pad, &mock), 1);
    pad.set_level(&mut mock, PinState::Low);
    assert_eq!(op_save(&pad, &mock), 0);
}

#[test]
fn restore_orders_latch_and_direction_so_no_unsaved_level_is_driven() {
    let mock = DwApbGpio::new();
    let pad = Pad::new('A', 1);
    let as_output = critical_section::with(|cs| op_restore(cs, &mock, &pad, 3));
    assert_eq!(as_output.len(), 2);
    assert_eq!(as_output.get(0), RegisterWrite { offset: 0x00, value: 1 << 1 });
    assert_eq!(as_output.get(1), RegisterWrite { offset: 0x04, value: 1 << 1 });
    let as_input = critical_section::with(|cs| op_restore(cs, &mock, &pad, 1));
    assert_eq!(as_input.len(), 2);
    assert_eq!(as_input.get(0), RegisterWrite { offset: 0x04, value: 0 });
    assert_eq!(as_input.get(1), RegisterWrite { offset: 0x00, value: 1 << 1 });
}

#[test]
fn event_selection_masks_the_pin_before_reconfiguring() {
    let mut mock = DwApbGpio::new();
    mock.write(INTERRUPT_MASK, 1 << 8);
    mock.write(INTERRUPT_TYPE, 1 << 6);
    let pad = Pad::new('A', 6);
    let plan = critical_section::with(|cs| op_set_event(cs, &mock, &pad, Event::LowLevel));
    assert_eq!(plan.len(), 4);
    assert_eq!(plan.get(0), RegisterWrite { offset: INTERRUPT_MASK, value: (1 << 8) | (1 << 6) });
    assert_eq!(plan.get(1), RegisterWrite { offset: INTERRUPT_TYPE, value: 0 });
    assert_eq!(plan.get(2), RegisterWrite { offset: INTERRUPT_POLARITY, value: 0 });
    assert_eq!(plan.get(3), RegisterWrite { offset: INTERRUPT_MASK, value: 1 << 8 });
    let plan = critical_section::with(|cs| {
        op_set_event_with_both_edges(cs, &mock, &pad, EventWithBothEdges::BothEdges)
    });
    assert_eq!(plan.len(), 5);
    assert_eq!(plan.get(0), RegisterWrite { offset: INTERRUPT_MASK, value: (1 << 8) | (1 << 6) });
    assert_eq!(plan.get(1), RegisterWrite { offset: INTERRUPT_TYPE, value: 1 << 6 });
    assert_eq!(plan.get(3), RegisterWrite { offset: INTERRUPT_BOTH_EDGE, value: 1 << 6 });
    assert_eq!(plan.get(4), RegisterWrite { offset: INTERRUPT_MASK, value: 1 << 8 });
}

#[test]
fn toggling_twice_restores_every_register() {
    let mut mock = DwApbGpio::new();
    for offset in (0..0x78).step_by(4) {
        mock.write(offset, 0x1234_5678u32.rotate_left(offset as u32));
    }
    let before: Vec<u32> = (0..0x78).step_by(4).map(|o| mock.read(o)).collect();
    let mut flex = FlexPad::new('C', 17);
    let latch = flex.is_set_high(&mock);
    flex.toggle(&mut mock);
    assert_eq!(flex.is_set_high(&mock), !latch);
    flex.toggle(&mut mock);
    let after: Vec<u32> = (0..0x78).step_by(4).map(|o| mock.read(o)).collect();
    assert_eq!(before, after);
}

#[test]
fn writes_are_made_in_order_and_the_last_one_wins() {
    let mut mock = DwApbGpio::new();
    let mut plan = Plan::new();
    plan.push(RegisterWrite { offset: 0x10, value: 5 });
    plan.push(RegisterWrite { offset: 0x74, value: 9 });
    plan.push(RegisterWrite { offset: 0x10, value: 6 });
    assert_eq!(plan.len(), 3);
    mock.perform(&plan);
    assert_eq!(mock.read(0x10), 6);
    assert_eq!(mock.read(0x74), 9);
    assert_eq!(mock.read(0x00), 0);
}

#[test]
fn pins_and_port_registers_are_located() {
    let pad = Pad::new('C', 9);
    assert_eq!(pad.port, 2);
    assert_eq!(pad.mask, 1 << 9);
    assert_eq!(pad.reborrow().mask, 1 << 9);
    assert_eq!(port_data(3), 0x24);
    assert_eq!(port_direction(1), 0x10);
    assert_eq!(port_external(2), 0x58);
}

#[test]
fn pin_states_convert_and_invert() {
    assert_eq!(PinState::from_bool(true), PinState::High);
    assert_eq!(PinState::from_bool(false), PinState::Low);
    assert!(PinState::High.is_high());
    assert!(!PinState::Low.is_high());
    assert_eq!(PinState::High.inverted(), PinState::Low);
    assert_eq!(PinState::Low.inverted(), PinState::High);
}

#[test]
fn interrupt_teardown_to_input_masks_and_disables() {
    let mut mock = DwApbGpio::new();
    let mut eint = dw_apb_gpio::EintPad::new(12, &mut mock);
    eint.enable_interrupt(&mut mock);
    assert_eq!(mock.read(0x30), 1 << 12);
    assert_eq!(mock.read(0x34), 0);
    eint.disable_interrupt(&mut mock);
    assert_eq!(mock.read(0x30), 0);
    assert_eq!(mock.read(0x34), 1 << 12);
    eint.enable_interrupt(&mut mock);
    mock.write(0x50, 1 << 12);
    assert!(eint.is_high(&mock));
    assert!(!eint.is_low(&mock));
    let input = eint.into_input(&mut mock);
    assert_eq!(mock.read(0x30), 0);
    assert_eq!(mock.read(0x34), 1 << 12);
    assert!(input.is_high(&mock));
    assert_eq!(mock.read(0x04), 0);
}

#[test]
fn operations_name_the_registers_they_read() {
    let pad = Pad::new('B', 3);
    assert_eq!(op_reads(&pad, Operation::Level), [0x54; 4]);
    assert_eq!(op_reads(&pad, Operation::Toggle), [0x0c; 4]);
    assert_eq!(op_reads(&pad, Operation::SetInput), [0x10; 4]);
    assert_eq!(op_reads(&pad, Operation::Restore), [0x0c, 0x10, 0x0c, 0x10]);
    assert_eq!(op_reads(&pad, Operation::InterruptPending), [INTERRUPT_STATUS; 4]);
    let pin = Pad::new('A', 3);
    assert_eq!(
        op_reads(&pin, Operation::EintIntoOutput),
        [INTERRUPT_MASK, INTERRUPT_ENABLE, 0x00, 0x04]
    );
    assert_eq!(
        op_reads(&pin, Operation::SetEventWithBothEdges),
        [INTERRUPT_MASK, INTERRUPT_TYPE, INTERRUPT_POLARITY, INTERRUPT_BOTH_EDGE]
    );
}

#[test]
fn a_plan_computed_from_the_read_registers_alone_is_the_full_plan() {
    let mut full = DwApbGpio::new();
    for offset in (0..0x78).step_by(4) {
        full.write(offset, 0xdead_beefu32.rotate_left(offset as u32));
    }
    let pad = Pad::new('A', 9);
    let mut partial = DwApbGpio::new();
    for offset in op_reads(&pad, Operation::SetEventWithBothEdges) {
        partial.write(offset, full.read(offset));
    }
    let from_full = critical_section::with(|cs| {
        op_set_event_with_both_edges(cs, &full, &pad, EventWithBothEdges::FallingEdge)
    });
    let from_partial = critical_section::with(|cs| {
        op_set_event_with_both_edges(cs, &partial, &pad, EventWithBothEdges::FallingEdge)
    });
    assert_eq!(from_full.len(), from_partial.len());
    for i in 0..from_full.len() {
        assert_eq!(from_full.get(i), from_partial.get(i));
    }
}
