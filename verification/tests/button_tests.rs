use button_input::button::{classify, Button, ButtonPressType, ButtonState};

#[test]
fn classify_boundaries() {
    assert_eq!(classify(0), Some(ButtonPressType::Short));
    assert_eq!(classify(1), Some(ButtonPressType::Short));
    assert_eq!(classify(499), Some(ButtonPressType::Short));
    assert_eq!(classify(500), Some(ButtonPressType::Long));
    assert_eq!(classify(501), Some(ButtonPressType::Long));
    assert_eq!(classify(1999), Some(ButtonPressType::Long));
    assert_eq!(classify(2000), None);
    assert_eq!(classify(2001), None);
    assert_eq!(classify(u64::MAX), None);
}

#[test]
fn classify_typical_durations() {
    assert_eq!(classify(300), Some(ButtonPressType::Short));
    assert_eq!(classify(1200), Some(ButtonPressType::Long));
    assert_eq!(classify(2500), None);
}

#[test]
fn button_queries() {
    let b1s = Button::Button1(ButtonPressType::Short);
    let b1l = Button::Button1(ButtonPressType::Long);
    let b2s = Button::Button2(ButtonPressType::Short);
    let b2l = Button::Button2(ButtonPressType::Long);
    let both = Button::Both;

    assert!(b1s.is_button1());
    assert!(b1l.is_button1());
    assert!(!b2s.is_button1());
    assert!(!both.is_button1());

    assert!(b2s.is_button2());
    assert!(b2l.is_button2());
    assert!(!b1l.is_button2());
    assert!(!both.is_button2());

    assert!(b1s.is_short_press());
    assert!(b2s.is_short_press());
    assert!(!b1l.is_short_press());
    assert!(!b2l.is_short_press());
    assert!(!both.is_short_press());

    assert!(b1l.is_long_press());
    assert!(b2l.is_long_press());
    assert!(!b1s.is_long_press());
    assert!(!b2s.is_long_press());
    assert!(!both.is_long_press());
}

#[test]
fn labels() {
    assert_eq!(ButtonPressType::Short.label(), "Short Press");
    assert_eq!(ButtonPressType::Long.label(), "Long Press");
    assert_eq!(Button::Button1(ButtonPressType::Short).label(), "Button 1 (Short Press)");
    assert_eq!(Button::Button1(ButtonPressType::Long).label(), "Button 1 (Long Press)");
    assert_eq!(Button::Button2(ButtonPressType::Short).label(), "Button 2 (Short Press)");
    assert_eq!(Button::Button2(ButtonPressType::Long).label(), "Button 2 (Long Press)");
    assert_eq!(Button::Both.label(), "Both Buttons");
}

#[test]
fn idle_button_emits_nothing() {
    let mut state = ButtonState::default();
    assert_eq!(state.update(false, 0), None);
    assert_eq!(state.update(false, 1000), None);
}

#[test]
fn short_press_detected() {
    let mut state = ButtonState::default();
    assert_eq!(state.update(true, 0), None);
    assert_eq!(state.update(false, 300), Some(ButtonPressType::Short));
}

#[test]
fn long_press_detected() {
    let mut state = ButtonState::default();
    assert_eq!(state.update(true, 0), None);
    assert_eq!(state.update(false, 1200), Some(ButtonPressType::Long));
}

#[test]
fn overlong_hold_discarded() {
    let mut state = ButtonState::default();
    assert_eq!(state.update(true, 0), None);
    assert_eq!(state.update(false, 2500), None);
}

#[test]
fn holding_never_emits_and_keeps_the_start() {
    let mut state = ButtonState::default();
    assert_eq!(state.update(true, 0), None);
    assert_eq!(state.update(true, 600), None);
    assert_eq!(state.update(true, 1900), None);
    // Measured from the first sample the hold lasted 2100 ms and is
    // discarded; had any held sample moved the start, a press would have
    // been reported instead.
    assert_eq!(state.update(false, 2100), None);
}

#[test]
fn release_starts_the_next_measurement_fresh() {
    let mut state = ButtonState::default();
    assert_eq!(state.update(true, 0), None);
    assert_eq!(state.update(false, 300), Some(ButtonPressType::Short));
    assert_eq!(state.update(true, 1000), None);
    // 400 ms measured from the second press; from the first it would have
    // been a long press.
    assert_eq!(state.update(false, 1400), Some(ButtonPressType::Short));
}

#[test]
fn fresh_press_after_discarded_hold() {
    let mut state = ButtonState::default();
    assert_eq!(state.update(true, 0), None);
    assert_eq!(state.update(false, 2500), None);
    assert_eq!(state.update(true, 3000), None);
    assert_eq!(state.update(false, 3400), Some(ButtonPressType::Short));
}

#[test]
fn clock_reading_before_start_counts_as_zero() {
    let mut state = ButtonState::default();
    assert_eq!(state.update(true, 500), None);
    assert_eq!(state.update(false, 100), Some(ButtonPressType::Short));
}
