use grow_agent::gpio::GpioState;

#[test]
fn gpio_values() {
    assert_eq!(GpioState::from_value(1), GpioState::Activated);
    assert_eq!(GpioState::from_value(0), GpioState::Deactivated);
    assert_eq!(GpioState::from_value(2), GpioState::Deactivated);
    assert_eq!(GpioState::Activated.to_value(), 1);
    assert_eq!(GpioState::Deactivated.to_value(), 0);
}

#[test]
fn gpio_toggle() {
    assert_eq!(GpioState::Activated.toggle(), GpioState::Deactivated);
    assert_eq!(GpioState::Deactivated.toggle(), GpioState::Activated);
    for s in [GpioState::Activated, GpioState::Deactivated] {
        assert_eq!(s.toggle().toggle(), s);
        assert_eq!(GpioState::from_value(s.to_value()), s);
    }
}

#[test]
fn gpio_names() {
    assert_eq!(GpioState::Activated.as_str(), "Activating");
    assert_eq!(GpioState::Deactivated.as_str(), "Deactivating");
}

#[test]
fn gpio_order() {
    assert!(GpioState::Activated < GpioState::Deactivated);
}
