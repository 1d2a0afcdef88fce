use mp3_player::input::{decode_event, Command, TermEvent};

#[test]
fn space_press_toggles_pause() {
    let cmd = decode_event(Some(TermEvent::CharKey { ch: ' ', is_press: true }));
    assert_eq!(cmd, Some(Command::TogglePause));
}

#[test]
fn q_press_quits() {
    let cmd = decode_event(Some(TermEvent::CharKey { ch: 'q', is_press: true }));
    assert_eq!(cmd, Some(Command::Quit));
}

#[test]
fn key_releases_are_ignored() {
    assert_eq!(
        decode_event(Some(TermEvent::CharKey { ch: ' ', is_press: false })),
        None
    );
    assert_eq!(
        decode_event(Some(TermEvent::CharKey { ch: 'q', is_press: false })),
        None
    );
}

#[test]
fn unrecognized_keys_are_ignored() {
    assert_eq!(
        decode_event(Some(TermEvent::CharKey { ch: 'x', is_press: true })),
        None
    );
    assert_eq!(
        decode_event(Some(TermEvent::OtherKey { is_press: true })),
        None
    );
}

#[test]
fn non_key_events_and_timeouts_are_ignored() {
    assert_eq!(decode_event(Some(TermEvent::NonKey)), None);
    assert_eq!(decode_event(None), None);
}
