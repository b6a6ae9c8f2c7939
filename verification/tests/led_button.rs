use h_button::led_button::{Command, LedButton};

#[test]
fn lamp_starts_dark_and_armed() {
    let button = LedButton::new(150_000);
    assert!(!button.is_led_on());
    assert!(button.is_armed());
}

#[test]
fn press_lights_the_lamp_and_starts_the_timer() {
    let mut button = LedButton::new(150_000);
    assert_eq!(button.on_press(), Some(Command { led_high: true, rearm_after: 150_000 }));
    assert!(button.is_led_on());
    assert!(!button.is_armed());
}

#[test]
fn bounce_before_the_timer_is_ignored() {
    let mut button = LedButton::new(20_000);
    assert!(button.on_press().is_some());
    assert_eq!(button.on_press(), None);
    assert_eq!(button.on_press(), None);
    assert!(button.is_led_on());
    assert!(!button.is_armed());
}

#[test]
fn press_after_the_timer_toggles_back() {
    let mut button = LedButton::new(20_000);
    assert_eq!(button.on_press(), Some(Command { led_high: true, rearm_after: 20_000 }));
    button.on_timer();
    assert!(button.is_armed());
    assert!(button.is_led_on());
    assert_eq!(button.on_press(), Some(Command { led_high: false, rearm_after: 20_000 }));
    assert!(!button.is_led_on());
}
