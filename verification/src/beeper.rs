//! The audible signals of the host, as a two-step state machine: the first
//! poll hands out the tones to play, the second one is ready.

use vstd::prelude::*;

verus! {

/// The length of every tone, in milliseconds.
pub const TONE_MILLIS: u32 = 200;

/// Where a signal stands.
#[derive(Clone, Copy, PartialEq, Eq, Structural, Debug)]
pub enum PlayState {
    /// The signal for success has not been played yet.
    PlayingOk,
    /// The signal for failure has not been played yet.
    PlayingError,
    /// The tones have been handed out.
    Done,
}

/// One tone of a signal.
#[derive(Clone, Copy, PartialEq, Eq, Structural, Debug)]
pub struct Tone {
    /// The pitch in hertz.
    pub hz: u32,
    /// The length in milliseconds.
    pub millis: u32,
}

/// What a poll of a signal gives.
#[derive(Debug, PartialEq, Eq)]
pub enum Playback {
    /// Play these tones in order, then poll again.
    Pending(Vec<Tone>),
    /// The signal is over.
    Ready,
}

/// A signal to play.
pub struct Beeper {
    state: PlayState,
}

/// The pitches of the signal for success.
pub open spec fn ok_pitches() -> Seq<u32> {
    seq![1900u32, 2600u32]
}

/// The pitches of the signal for failure.
pub open spec fn error_pitches() -> Seq<u32> {
    seq![600u32, 400u32, 100u32]
}

/// Tones of the common length with the given pitches.
pub open spec fn tones_of(pitches: Seq<u32>) -> Seq<Tone> {
    Seq::new(pitches.len(), |i: int| Tone { hz: pitches[i], millis: TONE_MILLIS })
}

/// What a poll in the given state hands out.
pub open spec fn playback_in(state: PlayState) -> Option<Seq<Tone>> {
    match state {
        PlayState::PlayingOk => Some(tones_of(ok_pitches())),
        PlayState::PlayingError => Some(tones_of(error_pitches())),
        PlayState::Done => None,
    }
}

impl Beeper {
    /// Where the signal stands.
    pub closed spec fn state(&self) -> PlayState {
        self.state
    }

    /// The signal for success.
    pub fn ok() -> (beeper: Beeper)
        ensures
            beeper.state() == PlayState::PlayingOk,
    {
        Beeper { state: PlayState::PlayingOk }
    }

    /// The signal for failure.
    pub fn error() -> (beeper: Beeper)
        ensures
            beeper.state() == PlayState::PlayingError,
    {
        Beeper { state: PlayState::PlayingError }
    }

    /// Advances the signal: a signal that has not been played hands out its
    /// tones and is done; a signal that is done is ready.
    pub fn poll(&mut self) -> (playback: Playback)
        ensures
            final(self).state() == PlayState::Done,
            match playback {
                Playback::Pending(tones) => playback_in(old(self).state()) == Some(tones@),
                Playback::Ready => playback_in(old(self).state()) is None,
            },
    {
        let state: PlayState = self.state;
        self.state = PlayState::Done;
        match state {
            PlayState::PlayingOk => {
                let mut tones: Vec<Tone> = Vec::new();
                tones.push(Tone { hz: 1900, millis: TONE_MILLIS });
                tones.push(Tone { hz: 2600, millis: TONE_MILLIS });
                assert(tones@ =~= tones_of(ok_pitches()));
                Playback::Pending(tones)
            },
            PlayState::PlayingError => {
                let mut tones: Vec<Tone> = Vec::new();
                tones.push(Tone { hz: 600, millis: TONE_MILLIS });
                tones.push(Tone { hz: 400, millis: TONE_MILLIS });
                tones.push(Tone { hz: 100, millis: TONE_MILLIS });
                assert(tones@ =~= tones_of(error_pitches()));
                Playback::Pending(tones)
            },
            PlayState::Done => Playback::Ready,
        }
    }
}

/// Every signal is over at its second poll at the latest, and stays over.
pub proof fn law_signal_ends(state: PlayState)
    ensures
        playback_in(PlayState::Done) is None,
        state != PlayState::Done ==> playback_in(state) is Some,
{
}

} // verus!
