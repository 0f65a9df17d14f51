//! The mixer state the audio core synchronizes: song and sound-effect
//! playback positions, advanced one sample at a time. Waveform
//! synthesis itself is an outside collaborator; the core's concern is
//! where playback is, so that the simulation and the audio thread can
//! hand that state across threads and resume from it exactly.
use vstd::prelude::*;

use crate::SFX_CHANNELS;

verus! {

/// Where song playback is: which song, and how many samples of it
/// have been produced. Wraps to zero after the last representable
/// sample.
#[derive(Clone, Copy, PartialEq, Eq, Structural, Debug)]
pub struct SongPlayback {
    pub song: Option<u32>,
    pub position: u64,
}

/// Where one sound-effect channel is: which effect, and how many
/// samples of it have been produced.
#[derive(Clone, Copy, PartialEq, Eq, Structural, Debug)]
pub struct SfxPlayback {
    pub sfx: Option<u32>,
    pub position: u64,
}

/// The mathematical value of the mixer state.
#[verifier::ext_equal]
pub struct SoundView {
    pub bgm: SongPlayback,
    pub sfx: Seq<SfxPlayback>,
}

/// The full mixer state one simulated frame hands to the audio
/// thread: the song and every sound-effect channel.
#[derive(PartialEq, Eq, Debug)]
pub struct SoundEngineData {
    pub bgm: SongPlayback,
    pub sfx: Vec<SfxPlayback>,
}

impl View for SoundEngineData {
    type V = SoundView;

    open spec fn view(&self) -> SoundView {
        SoundView { bgm: self.bgm, sfx: self.sfx@ }
    }
}

/// One sample of song playback: an idle channel stays put, a playing
/// one moves one sample forward.
pub open spec fn spec_tick_song(t: SongPlayback) -> SongPlayback {
    if t.song is Some {
        SongPlayback {
            position: if t.position == u64::MAX {
                0
            } else {
                (t.position + 1) as u64
            },
            ..t
        }
    } else {
        t
    }
}

/// One sample of one sound-effect channel.
pub open spec fn spec_tick_sfx(t: SfxPlayback) -> SfxPlayback {
    if t.sfx is Some {
        SfxPlayback {
            position: if t.position == u64::MAX {
                0
            } else {
                (t.position + 1) as u64
            },
            ..t
        }
    } else {
        t
    }
}

/// One sample of the whole mixer: the song and every sound-effect
/// channel advance together.
pub open spec fn spec_tick(v: SoundView) -> SoundView {
    SoundView { bgm: spec_tick_song(v.bgm), sfx: v.sfx.map_values(|t: SfxPlayback| spec_tick_sfx(t)) }
}

/// `n` samples of the whole mixer.
pub open spec fn spec_tick_n(v: SoundView, n: nat) -> SoundView
    decreases n,
{
    if n == 0 {
        v
    } else {
        spec_tick(spec_tick_n(v, (n - 1) as nat))
    }
}

impl SoundEngineData {
    /// A silent mixer: no song, every effect channel idle.
    pub fn new() -> (r: SoundEngineData)
        ensures
            r@.bgm == (SongPlayback { song: None, position: 0 }),
            r@.sfx.len() == SFX_CHANNELS,
            forall|i: int|
                0 <= i < SFX_CHANNELS ==> r@.sfx[i] == (SfxPlayback { sfx: None, position: 0 }),
    {
        let mut sfx: Vec<SfxPlayback> = Vec::new();
        let mut i: usize = 0;
        while i < SFX_CHANNELS
            invariant
                i <= SFX_CHANNELS,
                sfx@.len() == i,
                forall|j: int| 0 <= j < i ==> sfx@[j] == (SfxPlayback { sfx: None, position: 0 }),
            decreases SFX_CHANNELS - i,
        {
            sfx.push(SfxPlayback { sfx: None, position: 0 });
            i = i + 1;
        }
        SoundEngineData { bgm: SongPlayback { song: None, position: 0 }, sfx }
    }

    /// Sets the song to be played, from its start; `None` stops it.
    /// Sound-effect channels are untouched.
    pub fn play_bgm(&mut self, song: Option<u32>)
        ensures
            final(self)@ == (SoundView {
                bgm: SongPlayback { song, position: 0 },
                sfx: old(self)@.sfx,
            }),
    {
        self.bgm = SongPlayback { song, position: 0 };
    }

    /// Sets the effect to be played on one channel, from its start;
    /// `None` stops that channel. Everything else is untouched.
    pub fn play_sfx(&mut self, sfx: Option<u32>, channel: usize)
        requires
            channel < old(self)@.sfx.len(),
        ensures
            final(self)@ == (SoundView {
                bgm: old(self)@.bgm,
                sfx: old(self)@.sfx.update(channel as int, SfxPlayback { sfx, position: 0 }),
            }),
    {
        self.sfx[channel] = SfxPlayback { sfx, position: 0 };
    }

    /// Advances the whole mixer by exactly one sample.
    pub fn tick(&mut self)
        ensures
            final(self)@ == spec_tick(old(self)@),
    {
        if self.bgm.song.is_some() {
            self.bgm.position = if self.bgm.position == u64::MAX {
                0
            } else {
                self.bgm.position + 1
            };
        }
        let n = self.sfx.len();
        let mut i: usize = 0;
        while i < n
            invariant
                i <= n,
                n == self.sfx@.len(),
                self.bgm == spec_tick_song(old(self).bgm),
                forall|j: int| 0 <= j < i ==> self.sfx@[j] == spec_tick_sfx(old(self).sfx@[j]),
                forall|j: int| i <= j < n ==> self.sfx@[j] == old(self).sfx@[j],
            decreases n - i,
        {
            let t = self.sfx[i];
            if t.sfx.is_some() {
                let p = if t.position == u64::MAX {
                    0
                } else {
                    t.position + 1
                };
                self.sfx[i] = SfxPlayback { position: p, ..t };
            }
            i = i + 1;
        }
        proof {
            assert(self@.sfx =~= spec_tick(old(self)@).sfx);
            assert(self@ =~~= spec_tick(old(self)@));
        }
    }

    /// A value-identical copy, pushed into the channel while the
    /// simulation keeps mutating its own.
    pub fn duplicate(&self) -> (r: SoundEngineData)
        ensures
            r@ == self@,
    {
        let mut sfx: Vec<SfxPlayback> = Vec::new();
        let mut i: usize = 0;
        while i < self.sfx.len()
            invariant
                i <= self.sfx@.len(),
                sfx@ == self.sfx@.take(i as int),
            decreases self.sfx@.len() - i,
        {
            sfx.push(self.sfx[i]);
            proof {
                assert(sfx@ =~= self.sfx@.take(i + 1int));
            }
            i = i + 1;
        }
        let r = SoundEngineData { bgm: self.bgm, sfx };
        proof {
            assert(r@.sfx =~= self@.sfx);
            assert(r@ =~~= self@);
        }
        r
    }
}

/// One audio-callback sample on the audio thread's working copy: a
/// freshly received mixer snapshot replaces the working copy outright
/// — a full generational replace, never a merge — and the copy then
/// advances one sample; with nothing received, the last known state
/// simply keeps playing.
pub open spec fn spec_callback_step(v: SoundView, incoming: Option<SoundView>) -> SoundView {
    match incoming {
        Some(d) => spec_tick(d),
        None => spec_tick(v),
    }
}

/// A starved stretch: `n` callback samples during which the
/// simulation pushed nothing.
pub open spec fn spec_starved_run(v: SoundView, n: nat) -> SoundView
    decreases n,
{
    if n == 0 {
        v
    } else {
        spec_callback_step(spec_starved_run(v, (n - 1) as nat), None)
    }
}

/// Audio continuity under starvation: when the simulation pushes
/// nothing for `n` callback samples, the audio thread still produces
/// `n` samples, each one ticking the last known state forward — never
/// silence, never a stall.
pub proof fn lemma_audio_continuity(v: SoundView, n: nat)
    ensures
        spec_starved_run(v, n) == spec_tick_n(v, n),
    decreases n,
{
    if n > 0 {
        lemma_audio_continuity(v, (n - 1) as nat);
    }
}

/// Applies one callback sample to the working copy.
pub fn advance_working_copy(working: &mut SoundEngineData, incoming: Option<SoundEngineData>)
    ensures
        final(working)@ == spec_callback_step(
            old(working)@,
            match incoming {
                Some(d) => Some(d@),
                None => None,
            },
        ),
{
    match incoming {
        Some(d) => {
            *working = d;
        },
        None => {},
    }
    working.tick();
}

} // verus!
