use h_button::encoder::{Encoder, Line, Phase};
use h_button::message::{BluetoothMessage, HidStatus};
use h_button::mute_button::MuteButton;
use h_button::mute_led::{LedStatus, MuteLed};
use h_button::report::{observe, Reconnect, Reporter};

fn status(position: i32, presses: u32) -> HidStatus {
    HidStatus {
        encoder_position: position,
        mic_mute_button_press_count: presses,
        led_status: LedStatus::Off,
    }
}

#[test]
fn start_publishes_the_initial_state() {
    let (reporter, message) = Reporter::new(Reconnect::Forget, status(0, 0));
    assert_eq!(message, BluetoothMessage::HidStatus(status(0, 0)));
    assert_eq!(reporter.previous(), status(0, 0));
    assert!(!reporter.unreported());
}

#[test]
fn unchanged_state_sends_nothing() {
    let (mut reporter, _) = Reporter::new(Reconnect::Forget, status(4, 2));
    assert_eq!(reporter.tick(true, status(4, 2)), None);
    assert_eq!(reporter.tick(true, status(4, 2)), None);
}

#[test]
fn changed_position_sends_the_current_state() {
    let (mut reporter, _) = Reporter::new(Reconnect::Forget, status(0, 0));
    assert_eq!(reporter.tick(true, status(3, 0)), Some(BluetoothMessage::HidStatus(status(3, 0))));
    assert_eq!(reporter.previous(), status(3, 0));
    assert_eq!(reporter.tick(true, status(3, 0)), None);
    assert_eq!(reporter.tick(true, status(-1, 0)), Some(BluetoothMessage::HidStatus(status(-1, 0))));
}

#[test]
fn changed_press_count_sends_the_current_state() {
    let (mut reporter, _) = Reporter::new(Reconnect::Forget, status(0, 0));
    assert_eq!(reporter.tick(true, status(0, 1)), Some(BluetoothMessage::HidStatus(status(0, 1))));
    assert_eq!(reporter.tick(true, status(0, 1)), None);
}

#[test]
fn indicator_alone_is_not_reported_but_is_carried() {
    let (mut reporter, _) = Reporter::new(Reconnect::Forget, status(0, 0));
    let lit = HidStatus { led_status: LedStatus::On, ..status(0, 0) };
    assert_eq!(reporter.tick(true, lit), None);
    assert_eq!(reporter.previous(), lit);
    let moved = HidStatus { led_status: LedStatus::On, ..status(1, 0) };
    assert_eq!(reporter.tick(true, moved), Some(BluetoothMessage::HidStatus(moved)));
}

#[test]
fn scenario_changes_while_disconnected_are_forgotten() {
    let (mut reporter, _) = Reporter::new(Reconnect::Forget, status(0, 0));
    for position in [2, 4, 5] {
        assert_eq!(reporter.tick(false, status(position, 0)), None);
        assert_eq!(reporter.previous(), status(position, 0));
    }
    assert_eq!(reporter.tick(true, status(5, 0)), None);
    assert_eq!(reporter.tick(true, status(6, 0)), Some(BluetoothMessage::HidStatus(status(6, 0))));
    assert_eq!(reporter.tick(true, status(6, 0)), None);
}

#[test]
fn scenario_changes_while_disconnected_are_flushed_on_reconnect() {
    let (mut reporter, _) = Reporter::new(Reconnect::Flush, status(0, 0));
    for position in [2, 4, 5] {
        assert_eq!(reporter.tick(false, status(position, 0)), None);
        assert_eq!(reporter.previous(), status(position, 0));
        assert!(reporter.unreported());
    }
    assert_eq!(reporter.tick(true, status(5, 0)), Some(BluetoothMessage::HidStatus(status(5, 0))));
    assert!(!reporter.unreported());
    assert_eq!(reporter.tick(true, status(5, 0)), None);
    assert_eq!(reporter.tick(true, status(5, 0)), None);
}

#[test]
fn flush_reports_nothing_if_nothing_changed_while_disconnected() {
    let (mut reporter, _) = Reporter::new(Reconnect::Flush, status(7, 1));
    assert_eq!(reporter.tick(false, status(7, 1)), None);
    assert_eq!(reporter.tick(false, status(7, 1)), None);
    assert!(!reporter.unreported());
    assert_eq!(reporter.tick(true, status(7, 1)), None);
}

#[test]
fn flush_behaves_like_forget_while_connected() {
    let (mut flush, _) = Reporter::new(Reconnect::Flush, status(0, 0));
    let (mut forget, _) = Reporter::new(Reconnect::Forget, status(0, 0));
    for (position, presses) in [(0, 0), (1, 0), (1, 0), (1, 1), (0, 1), (0, 1)] {
        let current = status(position, presses);
        assert_eq!(flush.tick(true, current), forget.tick(true, current));
    }
}

#[test]
fn one_message_carries_the_latest_of_several_changes() {
    let (mut reporter, _) = Reporter::new(Reconnect::Flush, status(0, 0));
    assert_eq!(reporter.tick(false, status(1, 0)), None);
    assert_eq!(reporter.tick(false, status(1, 1)), None);
    assert_eq!(reporter.tick(false, status(0, 1)), None);
    assert_eq!(reporter.tick(true, status(0, 2)), Some(BluetoothMessage::HidStatus(status(0, 2))));
    assert_eq!(reporter.tick(true, status(0, 2)), None);
}

#[test]
fn observe_reads_position_press_count_and_indicator() {
    let mut encoder = Encoder::new(0);
    let mut button = MuteButton::new(0);
    let mut led = MuteLed::new();
    assert_eq!(observe(&encoder, &button, &led), status(0, 0));
    encoder.on_edge(Line::A, 1, Phase { a_low: true, b_low: false });
    button.on_interrupt(2);
    button.on_interrupt(3);
    led.set_led_on();
    assert_eq!(
        observe(&encoder, &button, &led),
        HidStatus {
            encoder_position: -1,
            mic_mute_button_press_count: 2,
            led_status: LedStatus::On,
        }
    );
}
