use alacritty_terminal::event::Event;
use modernterm::bridge::{decide_relay, relay_step, RelayStep};

#[test]
fn every_event_marks_the_display_dirty() {
    for event in [Event::Wakeup, Event::Bell, Event::MouseCursorDirty, Event::ResetTitle] {
        assert_eq!(relay_step(Some(&event)), RelayStep { mark_dirty: true, stop: false });
    }
    assert_eq!(
        relay_step(Some(&Event::Title("top".to_string()))),
        RelayStep { mark_dirty: true, stop: false }
    );
}

#[test]
fn the_exit_marks_dirty_and_ends_the_relay() {
    assert_eq!(relay_step(Some(&Event::Exit)), RelayStep { mark_dirty: true, stop: true });
}

#[test]
fn a_closed_channel_ends_the_relay_quietly() {
    assert_eq!(relay_step(None), RelayStep { mark_dirty: false, stop: true });
}

#[test]
fn the_decision_table() {
    assert_eq!(decide_relay(Some(false)), RelayStep { mark_dirty: true, stop: false });
    assert_eq!(decide_relay(Some(true)), RelayStep { mark_dirty: true, stop: true });
    assert_eq!(decide_relay(None), RelayStep { mark_dirty: false, stop: true });
}
