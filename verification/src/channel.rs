//! The lock-free handoff between the simulation loop and the
//! real-time audio thread: a bounded single-producer single-consumer
//! queue of mixer snapshots. The queue itself comes from an outside
//! crate; the contracts here state only what each call promises on
//! its own, since the other endpoint lives on another thread.
use vstd::prelude::*;

use crate::audio::{spec_tick, spec_tick_n, SoundEngineData, SoundView};
use crate::MAX_ROLLBACK_SOUNDS;

verus! {

#[verifier::external_type_specification]
#[verifier::external_body]
#[verifier::reject_recursive_types(T)]
pub struct ExProducer<T>(rtrb::Producer<T>);

#[verifier::external_type_specification]
#[verifier::external_body]
#[verifier::reject_recursive_types(T)]
pub struct ExConsumer<T>(rtrb::Consumer<T>);

/// Relies on rtrb::RingBuffer::new: builds an empty bounded
/// single-producer single-consumer queue and hands back its two
/// endpoints.
#[verifier::external_body]
fn new_sound_channel(capacity: usize) -> (r: (
    rtrb::Producer<SoundEngineData>,
    rtrb::Consumer<SoundEngineData>,
)) {
    rtrb::RingBuffer::new(capacity)
}

/// Relies on rtrb::Producer::push: an accepted element is appended
/// for the consumer, in push order; a full queue rejects the element
/// and hands it back unchanged.
#[verifier::external_body]
fn push_sound(producer: &mut rtrb::Producer<SoundEngineData>, data: SoundEngineData) -> (r: Result<
    (),
    SoundEngineData,
>)
    ensures
        r matches Err(d) ==> d == data,
{
    match producer.push(data) {
        Ok(()) => Ok(()),
        Err(rtrb::PushError::Full(d)) => Err(d),
    }
}

/// Relies on rtrb::Consumer::pop: hands out the oldest element not
/// yet consumed, or nothing when the producer has not pushed one.
/// Whether and what arrives depends on the other thread, so nothing
/// is promised of the result; whoever takes it must cope with every
/// outcome.
#[verifier::external_body]
fn pop_sound(consumer: &mut rtrb::Consumer<SoundEngineData>) -> (r: Option<SoundEngineData>) {
    consumer.pop().ok()
}

/// What can go wrong when the simulation hands state to the audio
/// thread. An overflow is local and recoverable — the next frame
/// simply pushes a fresher snapshot — and must never crash the
/// simulation.
#[derive(Clone, Copy, PartialEq, Eq, Structural, Debug)]
pub enum AudioSyncError {
    ChannelOverflow,
}

/// The simulation side of the audio core: the producer endpoint and
/// the clock arithmetic tying the hardware sample rate to the logical
/// frame rate.
#[derive(Debug)]
pub struct SoundEngine {
    pub sound_frames_per_render_frame: usize,
    pub output_sample_rate: usize,
    pub producer: rtrb::Producer<SoundEngineData>,
}

impl SoundEngine {
    /// Builds the simulation-side engine for a negotiated hardware
    /// sample rate and a logical frame rate, and hands back the
    /// consumer endpoint for the audio thread. The queue is bounded
    /// by the fixed maximum of in-flight frames.
    pub fn new(output_sample_rate: usize, fps: usize) -> (r: (
        SoundEngine,
        rtrb::Consumer<SoundEngineData>,
    ))
        requires
            fps > 0,
        ensures
            r.0.sound_frames_per_render_frame == output_sample_rate / fps,
            r.0.output_sample_rate == output_sample_rate,
    {
        let (producer, consumer) = new_sound_channel(MAX_ROLLBACK_SOUNDS);
        (
            SoundEngine {
                sound_frames_per_render_frame: output_sample_rate / fps,
                output_sample_rate,
                producer,
            },
            consumer,
        )
    }

    /// The hardware sample rate the engine was built for.
    pub fn output_sample_rate(&self) -> (r: usize)
        ensures
            r == self.output_sample_rate,
    {
        self.output_sample_rate
    }

    /// Fast-forwards the simulation's own mixer copy by one render
    /// frame's worth of samples, keeping its notion of "where audio
    /// is" roughly aligned with real playback on the other clock.
    /// Nothing is pushed to the audio thread.
    pub fn fast_forward(&mut self, data: &mut SoundEngineData)
        ensures
            final(data)@ == spec_tick_n(
                old(data)@,
                old(self).sound_frames_per_render_frame as nat,
            ),
            *final(self) == *old(self),
    {
        let n = self.sound_frames_per_render_frame;
        let mut i: usize = 0;
        while i < n
            invariant
                i <= n,
                data@ == spec_tick_n(old(data)@, i as nat),
            decreases n - i,
        {
            data.tick();
            i = i + 1;
        }
    }

    /// Clones the frame's mixer state and pushes it to the audio
    /// thread. A full queue is reported as an overflow, never a
    /// crash: the simulation goes on and pushes a fresher snapshot
    /// next frame.
    pub fn sync_audio_thread(&mut self, data: &SoundEngineData) -> (r: Result<(), AudioSyncError>)
        ensures
            r matches Err(e) ==> e == AudioSyncError::ChannelOverflow,
            final(self).sound_frames_per_render_frame == old(self).sound_frames_per_render_frame,
            final(self).output_sample_rate == old(self).output_sample_rate,
    {
        let copy = data.duplicate();
        match push_sound(&mut self.producer, copy) {
            Ok(()) => Ok(()),
            Err(_) => Err(AudioSyncError::ChannelOverflow),
        }
    }
}

/// One audio-callback sample, as the audio thread runs it: try a
/// non-blocking pop; a received snapshot replaces the working copy
/// outright, otherwise the last known state keeps playing; either way
/// the copy advances exactly one sample, so starvation never stalls
/// playback.
pub fn audio_callback_tick(
    consumer: &mut rtrb::Consumer<SoundEngineData>,
    working: &mut SoundEngineData,
)
    ensures
        final(working)@ == spec_tick(old(working)@) || exists|d: SoundView|
            final(working)@ == spec_tick(d),
{
    let incoming = pop_sound(consumer);
    let ghost inc = match &incoming {
        Some(d) => Some(d@),
        None => None,
    };
    crate::audio::advance_working_copy(working, incoming);
    proof {
        if inc is Some {
            assert(working@ == spec_tick(inc->Some_0));
        }
    }
}

} // verus!
