use dw_apb_gpio::{
    DwApbGpio, EintPad, EintPadWithBothEdges, Event, EventWithBothEdges, FlexPad, Input, Output,
    PinState,
};

#[test]
fn digital_traits_use_external_levels_and_output_latches() {
    let mut mock = DwApbGpio::new();
    let input = Input::new('B', 31, &mut mock);
    let mut output = Output::new('D', 7, &mut mock, PinState::High);
    mock.write(0x0c, 1 << 31);
    let shared_input = &input;
    assert!(!shared_input.is_high(&mock));
    assert!(shared_input.is_low(&mock));
    assert_eq!(input.is_high(&mock), false);
    mock.write(0x54, 1 << 31);
    assert!(input.is_high(&mock));
    assert!(!input.is_low(&mock));
    assert_eq!(input.is_high(&mock), true);
    assert_eq!(input.is_low(&mock), false);
    assert_eq!(mock.read(0x28), 1 << 7);
    assert_eq!(mock.read(0x5c), 0);
    let shared_output = &output;
    assert!(shared_output.is_set_high(&mock));
    assert!(!shared_output.is_set_low(&mock));
    assert_eq!(output.is_set_high(&mock), true);
    output.set_low(&mut mock);
    assert_eq!(output.is_set_low(&mock), true);
    output.toggle(&mut mock);
    assert_eq!(output.is_set_high(&mock), true);
    output.set_level(&mut mock, PinState::Low);
    assert_eq!(mock.read(0x24), 0);
    output.set_level(&mut mock, PinState::High);
    assert_eq!(mock.read(0x24), 1 << 7);
    output.set_level(&mut mock, PinState::Low);
    assert_eq!(mock.read(0x24), 0);
}

#[test]
fn cached_masks_preserve_neighbours_on_every_port() {
    for (port, index) in [('A', 0usize), ('B', 1), ('C', 2), ('D', 3)] {
        for number in 0..32u8 {
            let mut mock = DwApbGpio::new();
            let mask = 1u32 << number;
            let data = index * 0x0c;
            let direction = data + 4;
            let external = 0x50 + index * 4;
            mock.write(data, 0xa5a5_a5a5);
            mock.write(direction, 0x5a5a_5a5a);
            let mut output = Output::new(port, number, &mut mock, PinState::Low);
            assert_eq!(mock.read(data), 0xa5a5_a5a5 & !mask);
            assert_eq!(mock.read(direction), 0x5a5a_5a5a | mask);
            output.set_high(&mut mock);
            assert_eq!(mock.read(data), 0xa5a5_a5a5 | mask);
            let mut flex = FlexPad::from(output);
            mock.write(external, mask);
            assert!(flex.is_high(&mock));
            flex.toggle(&mut mock);
            assert!(flex.is_set_low(&mock));
            assert!(flex.is_high(&mock));
            assert_eq!(mock.read(data), 0xa5a5_a5a5 & !mask);
            let input = flex.into_input(&mut mock);
            assert!(input.is_high(&mock));
            assert_eq!(mock.read(direction), 0x5a5a_5a5a & !mask);
        }
    }
}

#[test]
fn transitions_preserve_other_pins() {
    let mut mock = DwApbGpio::new();
    mock.write(0, 1 << 9);
    mock.write(4, 1 << 9);
    let input = Input::new('A', 3, &mut mock);
    let output = input.into_output(&mut mock, PinState::High);
    assert_eq!(mock.read(0), (1 << 9) | (1 << 3));
    assert_eq!(mock.read(4), (1 << 9) | (1 << 3));
    let mut flex = FlexPad::from(output.into_input(&mut mock));
    assert_eq!(mock.read(4), 1 << 9);
    flex.set_as_output(&mut mock, PinState::Low);
    assert_eq!(mock.read(0), 1 << 9);
    flex.set_high(&mut mock);
    assert!(flex.is_set_high(&mock));
    flex.set_as_input(&mut mock);
    assert_eq!(mock.read(4), 1 << 9);
    // Software/hardware control belongs to SoC integration, not direction changes.
    assert_eq!(mock.read(8), 0);
}

#[test]
fn interrupt_events_masking_and_teardown() {
    let mut mock = DwApbGpio::new();
    mock.write(0x30, 1 << 8);
    mock.write(0x34, 1 << 8);
    mock.write(0x38, 1 << 8);
    mock.write(0x3c, 1 << 8);
    mock.write(0x68, 1 << 8);
    let mut eint = EintPadWithBothEdges::new(5, &mut mock);
    assert_eq!(mock.read(0x30), 1 << 8);
    assert_eq!(mock.read(0x34), (1 << 8) | (1 << 5));
    for (event, edge, high, both) in [
        (EventWithBothEdges::RisingEdge, true, true, false),
        (EventWithBothEdges::FallingEdge, true, false, false),
        (EventWithBothEdges::HighLevel, false, true, false),
        (EventWithBothEdges::LowLevel, false, false, false),
        (EventWithBothEdges::BothEdges, true, false, true),
        (EventWithBothEdges::RisingEdge, true, true, false),
    ] {
        eint.set_event(&mut mock, event);
        assert_eq!(mock.read(0x38), (1 << 8) | ((edge as u32) << 5));
        assert_eq!(mock.read(0x3c), (1 << 8) | ((high as u32) << 5));
        assert_eq!(mock.read(0x68), (1 << 8) | ((both as u32) << 5));
    }
    eint.enable_interrupt(&mut mock);
    assert_eq!(mock.read(0x30), (1 << 8) | (1 << 5));
    assert_eq!(mock.read(0x34), 1 << 8);
    eint.set_event(&mut mock, EventWithBothEdges::LowLevel);
    assert_eq!(mock.read(0x34), 1 << 8);
    assert!(!eint.is_interrupt_pending(&mock));
    mock.write(0x40, 1 << 5);
    assert!(eint.is_interrupt_pending(&mock));
    eint.clear_interrupt(&mut mock);
    assert_eq!(mock.read(0x4c), 1 << 5);
    let output = eint.into_output(&mut mock, PinState::High);
    assert_eq!(mock.read(0x30), 1 << 8);
    assert_eq!(mock.read(0x34), (1 << 8) | (1 << 5));
    assert!(output.is_set_high(&mock));
}

#[test]
fn single_edge_events_never_touch_both_edge_register() {
    let mut mock = DwApbGpio::new();
    let mut eint = EintPad::new(0, &mut mock);
    mock.write(0x68, 0xfeed_beef);
    mock.write(0x38, 1 << 8);
    mock.write(0x3c, 1 << 8);
    for (event, edge, high) in [
        (Event::RisingEdge, true, true),
        (Event::FallingEdge, true, false),
        (Event::HighLevel, false, true),
        (Event::LowLevel, false, false),
    ] {
        eint.set_event(&mut mock, event);
        assert_eq!(mock.read(0x38), (1 << 8) | edge as u32);
        assert_eq!(mock.read(0x3c), (1 << 8) | high as u32);
        assert_eq!(mock.read(0x68), 0xfeed_beef);
    }
    eint.enable_interrupt(&mut mock);
    assert_eq!(mock.read(0x30), 1);
    assert_eq!(mock.read(0x34), 0);
    mock.write(0x40, 1);
    assert!(eint.is_interrupt_pending(&mock));
    eint.clear_interrupt(&mut mock);
    assert_eq!(mock.read(0x4c), 1);
    let output = eint.into_output(&mut mock, PinState::High);
    assert!(output.is_set_high(&mock));
    assert_eq!(mock.read(0x30), 0);
    assert_eq!(mock.read(0x34), 1);
    assert_eq!(mock.read(0x68), 0xfeed_beef);
}

#[test]
fn both_interrupt_types_support_mode_round_trips() {
    let mut single = DwApbGpio::new();
    let pin = FlexPad::new('A', 2);
    let input = pin.into_input(&mut single);
    let eint = input.into_eint(&mut single);
    let output = eint.into_output(&mut single, PinState::High);
    let eint = output.into_eint(&mut single);
    let mut flex = FlexPad::from_eint(eint, &mut single);
    flex.set_as_output(&mut single, PinState::Low);
    assert!(flex.is_set_low(&single));
    assert_eq!(single.read(0x30), 0);

    let mut both = DwApbGpio::new();
    let pin = FlexPad::new('A', 2);
    let input = pin.into_input(&mut both);
    let mut eint = input.into_eint_with_both_edges(&mut both);
    eint.set_event(&mut both, EventWithBothEdges::BothEdges);
    assert_eq!(both.read(0x68), 1 << 2);
    let output = eint.into_output(&mut both, PinState::High);
    let mut eint = output.into_eint_with_both_edges(&mut both);
    eint.set_event(&mut both, EventWithBothEdges::HighLevel);
    assert_eq!(both.read(0x68), 0);
    let mut flex = FlexPad::from_eint_with_both_edges(eint, &mut both);
    flex.set_as_output(&mut both, PinState::Low);
    assert!(flex.is_set_low(&both));
    assert_eq!(both.read(0x30), 0);
}
