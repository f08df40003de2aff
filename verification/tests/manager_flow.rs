//! The manager: the backend factory keyed by identifier strings, device
//! name resolution, and dispatch to the live backend.

use std::io::Cursor;

use playback_core::decode::{DecodeSeekResult, TrackInfo};
use playback_core::manager::{
    select_device, ActiveEngine, AudioManager, DeviceChoice, EngineKind, ManagerSeek, TrackInput,
};
use playback_core::galaxy::SeekPath;
use playback_core::PlayerError;
use rodio::Source;

/// Probe the bytes with the real decoder, as the application does.
fn probe(bytes: &[u8]) -> Option<TrackInfo> {
    let d = rodio::Decoder::new(Cursor::new(bytes.to_vec())).ok()?;
    let ms = d.total_duration().map(|t| u64::try_from(t.as_millis()).unwrap_or(u64::MAX));
    Some(TrackInfo {
        sample_rate: d.sample_rate().get(),
        channels: d.channels().get(),
        duration_ms: ms,
    })
}

/// Run a real decoder-side seek, as the application does for the fallback.
fn decode_from(bytes: &[u8], ms: u64) -> DecodeSeekResult {
    let mut d = match rodio::Decoder::new(Cursor::new(bytes.to_vec())) {
        Ok(d) => d,
        Err(_) => return DecodeSeekResult::NoDecoder,
    };
    match d.try_seek(std::time::Duration::from_millis(ms)) {
        Ok(()) => DecodeSeekResult::Seeked(
            rodio::conversions::SampleTypeConverter::<_, i16>::new(d).collect(),
        ),
        Err(_) => DecodeSeekResult::SeekFailed,
    }
}

fn wav_stereo(rate: u32, frames: &[(i16, i16)]) -> Vec<u8> {
    let data_len = (frames.len() * 4) as u32;
    let mut v: Vec<u8> = Vec::new();
    v.extend_from_slice(b"RIFF");
    v.extend_from_slice(&(36 + data_len).to_le_bytes());
    v.extend_from_slice(b"WAVE");
    v.extend_from_slice(b"fmt ");
    v.extend_from_slice(&16u32.to_le_bytes());
    v.extend_from_slice(&1u16.to_le_bytes());
    v.extend_from_slice(&2u16.to_le_bytes());
    v.extend_from_slice(&rate.to_le_bytes());
    v.extend_from_slice(&(rate * 4).to_le_bytes());
    v.extend_from_slice(&4u16.to_le_bytes());
    v.extend_from_slice(&16u16.to_le_bytes());
    v.extend_from_slice(b"data");
    v.extend_from_slice(&data_len.to_le_bytes());
    for &(l, r) in frames {
        v.extend_from_slice(&l.to_le_bytes());
        v.extend_from_slice(&r.to_le_bytes());
    }
    v
}

#[test]
fn manager_starts_on_the_streaming_engine() {
    let m = AudioManager::new();
    assert_eq!(m.current_engine(), EngineKind::Galaxy);
}

#[test]
fn switch_to_unavailable_external_decoder_fails_whole() {
    let mut m = AudioManager::new();
    let r = m.switch_engine("ffmpeg", false);
    assert_eq!(r, Err(PlayerError::BackendUnavailable));
    assert_eq!(m.current_engine(), EngineKind::Galaxy);
}

#[test]
fn switch_to_available_external_decoder_builds_it_fresh() {
    let mut m = AudioManager::new();
    assert_eq!(m.switch_engine("ffmpeg", true), Ok(EngineKind::Ffmpeg));
    assert_eq!(m.current_engine(), EngineKind::Ffmpeg);
    match &m.active_engine {
        ActiveEngine::Pipe(p) => {
            assert!(p.current_samples.is_none());
            assert!(!p.is_playing);
        },
        ActiveEngine::Galaxy(_) => panic!("expected the external-decoder engine"),
    }
}

#[test]
fn switch_to_unknown_engine_fails() {
    let mut m = AudioManager::new();
    assert_eq!(m.switch_engine("midi", true), Err(PlayerError::UnknownEngine));
    assert_eq!(m.current_engine(), EngineKind::Galaxy);
}

#[test]
fn switch_back_to_streaming_engine() {
    let mut m = AudioManager::new();
    m.switch_engine("ffmpeg", true).unwrap();
    assert_eq!(m.switch_engine("galaxy", false), Ok(EngineKind::Galaxy));
    assert_eq!(m.current_engine(), EngineKind::Galaxy);
}

#[test]
fn device_name_resolution() {
    let names: Vec<String> = vec!["Speakers".to_string(), "HDMI".to_string(), "HDMI".to_string()];
    assert_eq!(select_device(&names, "Default"), DeviceChoice::UseDefault);
    assert_eq!(select_device(&names, "HDMI"), DeviceChoice::Use(1));
    assert_eq!(select_device(&names, "Speakers"), DeviceChoice::Use(0));
    assert_eq!(select_device(&names, "USB"), DeviceChoice::NotFound);
    let empty: Vec<String> = Vec::new();
    assert_eq!(select_device(&empty, "anything"), DeviceChoice::NotFound);
    assert_eq!(select_device(&empty, "Default"), DeviceChoice::UseDefault);
}

#[test]
fn manager_load_and_seek_dispatch_to_the_streaming_engine() {
    let mut m = AudioManager::new();
    let frames: Vec<(i16, i16)> = (0..44100).map(|i| ((i % 50) as i16, 0)).collect();
    let bytes = wav_stereo(44100, &frames);
    let out = m
        .load(TrackInput::Encoded { bytes: bytes.clone(), probe: probe(&bytes) }, true)
        .unwrap();
    assert_eq!(out.duration_ms, 1000);
    assert!(out.fade.is_none());
    let gen: u64 = match &m.active_engine {
        ActiveEngine::Galaxy(g) => g.load_generation,
        ActiveEngine::Pipe(_) => panic!("expected the streaming engine"),
    };
    match m.seek(gen, 250, decode_from(&bytes, 250), true) {
        ManagerSeek::Galaxy(outcome) => {
            // No cache was committed: the fallback path answers.
            assert!(matches!(outcome.path, SeekPath::IoSeek));
        },
        ManagerSeek::Pipe(_) => panic!("expected the streaming engine"),
    }
}

#[test]
fn manager_volume_and_channels_dispatch() {
    let mut m = AudioManager::new();
    m.set_volume(420);
    m.set_channels(8);
    match &m.active_engine {
        ActiveEngine::Galaxy(g) => {
            assert_eq!(g.current_volume, 420);
            assert_eq!(g.channel_mode.channel_count(), 8);
        },
        ActiveEngine::Pipe(_) => panic!("expected the streaming engine"),
    }
    assert!(m.play().is_none());
    assert!(m.pause().is_none());
}

#[test]
fn manager_load_dispatches_to_the_pipe_engine() {
    let mut m = AudioManager::new();
    m.switch_engine("ffmpeg", true).unwrap();
    let out = m.load(TrackInput::RawPcm(vec![250; 44100]), true).unwrap();
    assert_eq!(out.duration_ms, 500);
    assert!(out.fade.is_some());
    let audio = m.update_output_stream(true);
    assert!(audio.is_none());
    match &m.active_engine {
        ActiveEngine::Pipe(p) => {
            assert!(p.is_playing);
            assert!(!p.sink.paused);
            assert_eq!(p.sink.queue.len(), 1);
        },
        ActiveEngine::Galaxy(_) => panic!("expected the external-decoder engine"),
    }
}
