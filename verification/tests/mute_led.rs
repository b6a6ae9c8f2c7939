use h_button::message::{handle_inbound, BluetoothMessage, HidStatus};
use h_button::mute_led::{LedStatus, MuteLed, Rgbw};

const RED: Rgbw = Rgbw { r: 255, g: 0, b: 0, w: 0 };
const BLACK: Rgbw = Rgbw { r: 0, g: 0, b: 0, w: 0 };

#[test]
fn indicator_starts_off() {
    let led = MuteLed::new();
    assert_eq!(led._get_led_status(), LedStatus::Off);
    assert_eq!(LedStatus::default(), LedStatus::Off);
}

#[test]
fn set_on_then_read_gives_on() {
    let mut led = MuteLed::new();
    assert_eq!(led.set_led_on(), RED);
    assert_eq!(led._get_led_status(), LedStatus::On);
    assert_eq!(led.set_led_on(), RED);
    assert_eq!(led._get_led_status(), LedStatus::On);
}

#[test]
fn set_off_then_read_gives_off() {
    let mut led = MuteLed::new();
    led.set_led_on();
    assert_eq!(led.set_led_off(), BLACK);
    assert_eq!(led._get_led_status(), LedStatus::Off);
}

#[test]
fn set_gives_the_colour_of_the_state() {
    let mut led = MuteLed::new();
    assert_eq!(led.set(LedStatus::On), RED);
    assert_eq!(led._get_led_status(), LedStatus::On);
    assert_eq!(led.set(LedStatus::Off), BLACK);
    assert_eq!(led._get_led_status(), LedStatus::Off);
}

#[test]
fn inbound_set_indicator_is_carried_out() {
    let mut led = MuteLed::new();
    let on = Some(BluetoothMessage::SetMicMuteIndicator(LedStatus::On));
    assert_eq!(handle_inbound(&mut led, on), Some(RED));
    assert_eq!(led._get_led_status(), LedStatus::On);
    let off = Some(BluetoothMessage::SetMicMuteIndicator(LedStatus::Off));
    assert_eq!(handle_inbound(&mut led, off), Some(BLACK));
    assert_eq!(led._get_led_status(), LedStatus::Off);
}

#[test]
fn inbound_that_did_not_decode_is_ignored() {
    let mut led = MuteLed::new();
    led.set_led_on();
    assert_eq!(handle_inbound(&mut led, None), None);
    assert_eq!(led._get_led_status(), LedStatus::On);
}

#[test]
fn inbound_status_message_is_ignored() {
    let mut led = MuteLed::new();
    led.set_led_on();
    let status = HidStatus {
        encoder_position: 3,
        mic_mute_button_press_count: 1,
        led_status: LedStatus::Off,
    };
    assert_eq!(handle_inbound(&mut led, Some(BluetoothMessage::HidStatus(status))), None);
    assert_eq!(led._get_led_status(), LedStatus::On);
}
