use gamercade_runtime::audio::{advance_working_copy, SoundEngineData};
use gamercade_runtime::channel::{audio_callback_tick, AudioSyncError, SoundEngine};
use gamercade_runtime::{MAX_ROLLBACK_SOUNDS, SFX_CHANNELS};

#[test]
fn new_mixer_is_silent() {
    let data = SoundEngineData::new();
    assert_eq!(data.bgm.song, None);
    assert_eq!(data.bgm.position, 0);
    assert_eq!(data.sfx.len(), SFX_CHANNELS);
    assert!(data.sfx.iter().all(|t| t.sfx.is_none() && t.position == 0));
}

#[test]
fn play_bgm_restarts_the_song() {
    let mut data = SoundEngineData::new();
    data.play_bgm(Some(3));
    assert_eq!(data.bgm.song, Some(3));
    assert_eq!(data.bgm.position, 0);
    data.tick();
    data.tick();
    assert_eq!(data.bgm.position, 2);
    data.play_bgm(Some(1));
    assert_eq!(data.bgm.position, 0);
    data.play_bgm(None);
    data.tick();
    assert_eq!(data.bgm.position, 0);
}

#[test]
fn play_sfx_drives_one_channel() {
    let mut data = SoundEngineData::new();
    data.play_sfx(Some(4), 2);
    data.tick();
    data.tick();
    data.tick();
    assert_eq!(data.sfx[2].sfx, Some(4));
    assert_eq!(data.sfx[2].position, 3);
    assert!(data.sfx.iter().enumerate().all(|(i, t)| i == 2 || t.position == 0));
    data.play_sfx(None, 2);
    data.tick();
    assert_eq!(data.sfx[2].position, 0);
}

#[test]
fn duplicate_is_value_identical() {
    let mut data = SoundEngineData::new();
    data.play_bgm(Some(9));
    data.play_sfx(Some(1), 0);
    data.tick();
    let copy = data.duplicate();
    assert_eq!(copy, data);
}

#[test]
fn fast_forward_matches_the_clock_ratio() {
    let (mut engine, _consumer) = SoundEngine::new(48000, 60);
    assert_eq!(engine.output_sample_rate(), 48000);
    assert_eq!(engine.sound_frames_per_render_frame, 800);
    let mut data = SoundEngineData::new();
    data.play_bgm(Some(0));
    data.play_sfx(Some(2), 5);
    engine.fast_forward(&mut data);
    assert_eq!(data.bgm.position, 800);
    assert_eq!(data.sfx[5].position, 800);
}

#[test]
fn starved_consumer_keeps_playing() {
    // The producer pushes nothing at all; every callback sample must
    // still tick the last known state forward.
    let (_engine, mut consumer) = SoundEngine::new(48000, 60);
    let mut working = SoundEngineData::new();
    working.play_bgm(Some(7));
    for _ in 0..5 {
        audio_callback_tick(&mut consumer, &mut working);
    }
    assert_eq!(working.bgm.song, Some(7));
    assert_eq!(working.bgm.position, 5);
}

#[test]
fn received_snapshot_replaces_the_working_copy() {
    let (mut engine, mut consumer) = SoundEngine::new(48000, 60);
    let mut working = SoundEngineData::new();
    working.play_bgm(Some(1));
    working.tick();
    let mut simulated = SoundEngineData::new();
    simulated.play_bgm(Some(2));
    for _ in 0..100 {
        simulated.tick();
    }
    engine.sync_audio_thread(&simulated).unwrap();
    // The popped snapshot replaces the working copy outright, then
    // advances one sample: a full generational replace, not a merge.
    audio_callback_tick(&mut consumer, &mut working);
    assert_eq!(working.bgm.song, Some(2));
    assert_eq!(working.bgm.position, 101);
    // With the channel drained, the copy ticks on from there.
    audio_callback_tick(&mut consumer, &mut working);
    assert_eq!(working.bgm.position, 102);
}

#[test]
fn replace_semantics_without_a_channel() {
    let mut working = SoundEngineData::new();
    working.play_bgm(Some(1));
    let mut incoming = SoundEngineData::new();
    incoming.play_bgm(Some(5));
    advance_working_copy(&mut working, Some(incoming));
    assert_eq!(working.bgm.song, Some(5));
    assert_eq!(working.bgm.position, 1);
    advance_working_copy(&mut working, None);
    assert_eq!(working.bgm.position, 2);
}

#[test]
fn full_channel_reports_overflow_and_recovers() {
    let (mut engine, mut consumer) = SoundEngine::new(48000, 60);
    let data = SoundEngineData::new();
    for _ in 0..MAX_ROLLBACK_SOUNDS {
        engine.sync_audio_thread(&data).unwrap();
    }
    assert_eq!(
        engine.sync_audio_thread(&data).unwrap_err(),
        AudioSyncError::ChannelOverflow
    );
    // Draining one slot makes room again: the condition is local and
    // recoverable, never fatal.
    let mut working = SoundEngineData::new();
    audio_callback_tick(&mut consumer, &mut working);
    engine.sync_audio_thread(&data).unwrap();
}
