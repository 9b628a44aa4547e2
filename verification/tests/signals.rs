use deltime::beeper::{Beeper, Playback, Tone, TONE_MILLIS};

#[test]
fn ok_signal_plays_two_rising_tones_once() {
    let mut beeper = Beeper::ok();
    assert_eq!(
        beeper.poll(),
        Playback::Pending(vec![Tone { hz: 1900, millis: 200 }, Tone { hz: 2600, millis: 200 }])
    );
    assert_eq!(beeper.poll(), Playback::Ready);
    assert_eq!(beeper.poll(), Playback::Ready);
}

#[test]
fn error_signal_plays_three_falling_tones_once() {
    let mut beeper = Beeper::error();
    assert_eq!(
        beeper.poll(),
        Playback::Pending(vec![
            Tone { hz: 600, millis: TONE_MILLIS },
            Tone { hz: 400, millis: TONE_MILLIS },
            Tone { hz: 100, millis: TONE_MILLIS },
        ])
    );
    assert_eq!(beeper.poll(), Playback::Ready);
    assert_eq!(TONE_MILLIS, 200);
}
