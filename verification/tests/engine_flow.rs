//! The streaming engine against real decoded audio: load, the generation
//! discipline of the cache, the two seek paths, and device rebinding.

use std::io::Cursor;

use playback_core::decode::{DecodeSeekResult, TrackInfo};
use playback_core::galaxy::{GalaxyEngine, GalaxyPath, SeekPath};
use playback_core::PlayerError;
use rodio::Source;

/// A little interleaved-stereo PCM WAV file, built byte by byte.
fn wav_stereo(rate: u32, frames: &[(i16, i16)]) -> Vec<u8> {
    let data_len = (frames.len() * 4) as u32;
    let mut v: Vec<u8> = Vec::new();
    v.extend_from_slice(b"RIFF");
    v.extend_from_slice(&(36 + data_len).to_le_bytes());
    v.extend_from_slice(b"WAVE");
    v.extend_from_slice(b"fmt ");
    v.extend_from_slice(&16u32.to_le_bytes());
    v.extend_from_slice(&1u16.to_le_bytes());
    v.extend_from_slice(&2u16.to_le_bytes());
    v.extend_from_slice(&rate.to_le_bytes());
    v.extend_from_slice(&(rate * 4).to_le_bytes());
    v.extend_from_slice(&4u16.to_le_bytes());
    v.extend_from_slice(&16u16.to_le_bytes());
    v.extend_from_slice(b"data");
    v.extend_from_slice(&data_len.to_le_bytes());
    for &(l, r) in frames {
        v.extend_from_slice(&l.to_le_bytes());
        v.extend_from_slice(&r.to_le_bytes());
    }
    v
}

/// Probe the bytes with the real decoder, as the application does before a
/// load (here without its panic guard: every input below is well-formed).
fn probe(bytes: &[u8]) -> Option<TrackInfo> {
    let d = rodio::Decoder::new(Cursor::new(bytes.to_vec())).ok()?;
    let ms = d.total_duration().map(|t| u64::try_from(t.as_millis()).unwrap_or(u64::MAX));
    Some(TrackInfo {
        sample_rate: d.sample_rate().get(),
        channels: d.channels().get(),
        duration_ms: ms,
    })
}

/// Decode the whole stream with the real decoder, as the background decode
/// task does.
fn decode(bytes: &[u8]) -> Option<Vec<i16>> {
    let d = rodio::Decoder::new(Cursor::new(bytes.to_vec())).ok()?;
    Some(rodio::conversions::SampleTypeConverter::<_, i16>::new(d).collect())
}

/// Run a real decoder-side seek, as the application does for the fallback
/// path.
fn decode_from(bytes: &[u8], ms: u64) -> DecodeSeekResult {
    let mut d = match rodio::Decoder::new(Cursor::new(bytes.to_vec())) {
        Ok(d) => d,
        Err(_) => return DecodeSeekResult::NoDecoder,
    };
    match d.try_seek(std::time::Duration::from_millis(ms)) {
        Ok(()) => DecodeSeekResult::Seeked(
            rodio::conversions::SampleTypeConverter::<_, i16>::new(d).collect(),
        ),
        Err(_) => DecodeSeekResult::SeekFailed,
    }
}

/// One second of quiet stereo at 44100 Hz.
fn one_second_wav() -> Vec<u8> {
    let frames: Vec<(i16, i16)> = (0..44100).map(|i| ((i % 100) as i16, -((i % 100) as i16))).collect();
    wav_stereo(44100, &frames)
}

#[test]
fn load_reports_decoder_duration() {
    let bytes = one_second_wav();
    let mut e = GalaxyEngine::new();
    let d = e.load(bytes.clone(), probe(&bytes), true).unwrap();
    assert_eq!(d, 1000);
    assert_eq!(e.sample_rate, 44100);
    assert_eq!(e.channels, 2);
    assert_eq!(e.load_generation, 1);
    assert!(!e.decode_finished);
    assert!(e.pcm_cache.is_none());
    assert_eq!(e.last_seek_pos_ms, 0);
    assert!(!e.sink.paused);
    assert_eq!(e.sink.queue.len(), 1);
    assert_eq!(e.sink.queue[0].generation, 1);
    assert!(matches!(e.sink.queue[0].path, GalaxyPath::Stream));
}

#[test]
fn load_of_undecodable_bytes_fails_but_supersedes() {
    let mut e = GalaxyEngine::new();
    let bytes = b"this is not an audio stream".to_vec();
    let p = probe(&bytes);
    assert!(p.is_none());
    let r = e.load(bytes, p, true);
    assert_eq!(r, Err(PlayerError::DecodeFailed));
    // The generation was already bumped and the completion signal reset:
    // earlier background work is superseded even by a failed load.
    assert_eq!(e.load_generation, 1);
    assert!(!e.decode_finished);
}

#[test]
fn failed_load_discards_the_previous_cache() {
    let bytes = one_second_wav();
    let mut e = GalaxyEngine::new();
    e.load(bytes.clone(), probe(&bytes), true).unwrap();
    let g = e.generation();
    e.commit_decode(g, decode(&bytes));
    assert!(e.pcm_cache.is_some());
    // A failed load still supersedes: the old track's cache must not stay
    // visible under the new generation.
    let bad = b"garbage".to_vec();
    let p = probe(&bad);
    let _ = e.load(bad, p, true);
    assert!(e.pcm_cache.is_none());
    let out = e.seek(e.generation(), 100, DecodeSeekResult::NoDecoder, true);
    assert!(!matches!(out.path, SeekPath::Memory { .. }));
}

#[test]
fn decoded_samples_match_the_embedded_pcm() {
    let frames: Vec<(i16, i16)> = vec![(1200, -800), (5, 6), (-12000, 12000)];
    let bytes = wav_stereo(44100, &frames);
    let pcm = decode(&bytes).unwrap();
    assert_eq!(pcm, vec![1200, -800, 5, 6, -12000, 12000]);
}

#[test]
fn cache_belongs_to_second_load_even_if_first_decode_finishes_last() {
    let bytes_a = wav_stereo(44100, &[(111, 111), (222, 222)]);
    let bytes_b = wav_stereo(44100, &[(-5, -6), (-7, -8)]);
    let mut e = GalaxyEngine::new();
    e.load(bytes_a.clone(), probe(&bytes_a), true).unwrap();
    let gen_a = e.load_generation;
    e.load(bytes_b.clone(), probe(&bytes_b), true).unwrap();
    let gen_b = e.load_generation;
    let pcm_a = decode(&bytes_a);
    let pcm_b = decode(&bytes_b);
    // The second load's decode commits first, the stale one afterwards.
    e.commit_decode(gen_b, pcm_b.clone());
    e.commit_decode(gen_a, pcm_a.clone());
    assert_eq!(e.pcm_cache, pcm_b);
    assert_eq!(e.cache_generation, gen_b);
    assert!(e.decode_finished);
}

#[test]
fn cache_belongs_to_second_load_in_commit_order_too() {
    let bytes_a = wav_stereo(44100, &[(111, 111), (222, 222)]);
    let bytes_b = wav_stereo(44100, &[(-5, -6), (-7, -8)]);
    let mut e = GalaxyEngine::new();
    e.load(bytes_a.clone(), probe(&bytes_a), true).unwrap();
    let gen_a = e.load_generation;
    e.load(bytes_b.clone(), probe(&bytes_b), true).unwrap();
    let gen_b = e.load_generation;
    e.commit_decode(gen_a, decode(&bytes_a));
    assert!(e.pcm_cache.is_none());
    e.commit_decode(gen_b, decode(&bytes_b));
    assert_eq!(e.pcm_cache, decode(&bytes_b));
}

#[test]
fn seek_before_cache_ready_takes_the_io_path() {
    let bytes = one_second_wav();
    let mut e = GalaxyEngine::new();
    e.load(bytes.clone(), probe(&bytes), true).unwrap();
    let g = e.generation();
    let out = e.seek(g, 500, decode_from(&bytes, 500), true);
    assert!(matches!(out.path, SeekPath::IoSeek));
    let audio = out.audio.unwrap();
    assert!(!audio.is_empty());
    assert!(audio.iter().all(|&s| -32768 <= s && s <= 32768));
}

#[test]
fn seek_after_cache_ready_takes_the_memory_path() {
    let bytes = one_second_wav();
    let mut e = GalaxyEngine::new();
    e.load(bytes.clone(), probe(&bytes), true).unwrap();
    let g = e.generation();
    e.commit_decode(g, decode(&bytes));
    let out = e.seek(g, 500, DecodeSeekResult::NoDecoder, true);
    // 500 ms at 44100 Hz stereo: 44100 samples in, already frame-aligned.
    assert!(matches!(out.path, SeekPath::Memory { offset: 44100 }));
    let audio = out.audio.unwrap();
    assert_eq!(audio.len(), 44100);
    assert_eq!(e.last_seek_pos_ms, 500);
    assert_eq!(e.sink.queue.len(), 1);
    assert!(matches!(e.sink.queue[0].path, GalaxyPath::Memory { offset: 44100 }));
    assert!(!e.sink.paused);
}

#[test]
fn seek_beyond_cached_samples_appends_nothing() {
    let bytes = one_second_wav();
    let mut e = GalaxyEngine::new();
    e.load(bytes.clone(), probe(&bytes), true).unwrap();
    let g = e.generation();
    e.commit_decode(g, decode(&bytes));
    let out = e.seek(g, 2_000_000, DecodeSeekResult::NoDecoder, true);
    assert!(matches!(out.path, SeekPath::OutOfRange));
    assert!(out.audio.is_none());
    assert_eq!(e.sink.queue.len(), 0);
    assert!(!e.sink.paused);
}

#[test]
fn seek_against_superseded_generation_has_no_effect() {
    let bytes = one_second_wav();
    let mut e = GalaxyEngine::new();
    e.load(bytes.clone(), probe(&bytes), true).unwrap();
    let stale = e.generation() - 1;
    let volume_before = e.sink.volume;
    let queue_before = e.sink.queue.len();
    let out = e.seek(stale, 500, decode_from(&bytes, 500), true);
    assert!(matches!(out.path, SeekPath::Stale));
    assert!(out.audio.is_none());
    assert_eq!(e.sink.volume, volume_before);
    assert_eq!(e.sink.queue.len(), queue_before);
    assert_eq!(e.last_seek_pos_ms, 0);
}

#[test]
fn seek_with_nothing_loaded_reports_no_track() {
    let mut e = GalaxyEngine::new();
    let g = e.generation();
    let out = e.seek(g, 0, DecodeSeekResult::NoDecoder, true);
    assert!(matches!(out.path, SeekPath::NoTrack));
    assert!(out.audio.is_none());
}

#[test]
fn seek_with_a_refused_decoder_position_pauses() {
    let bytes = one_second_wav();
    let mut e = GalaxyEngine::new();
    e.load(bytes.clone(), probe(&bytes), true).unwrap();
    let g = e.generation();
    // The caller's decoder-side seek was refused: pause rather than
    // silently restarting from the beginning.
    let out = e.seek(g, 500, DecodeSeekResult::SeekFailed, true);
    assert!(matches!(out.path, SeekPath::IoSeekFailed));
    assert!(out.audio.is_none());
    assert!(e.sink.paused);
    assert_eq!(e.sink.queue.len(), 0);
}

#[test]
fn seek_renders_through_the_selected_layout() {
    let bytes = one_second_wav();
    let mut e = GalaxyEngine::new();
    e.set_channel_mode(6);
    e.load(bytes.clone(), probe(&bytes), true).unwrap();
    let g = e.generation();
    e.commit_decode(g, decode(&bytes));
    let out = e.seek(g, 500, DecodeSeekResult::NoDecoder, true);
    let audio = out.audio.unwrap();
    // 22050 stereo frames left, six output channels each.
    assert_eq!(audio.len(), 22050 * 6);
}

#[test]
fn galaxy_volume_applies_immediately() {
    let mut e = GalaxyEngine::new();
    e.set_volume(250);
    assert_eq!(e.current_volume, 250);
    assert_eq!(e.sink.volume, 250);
    e.pause();
    assert!(e.sink.paused);
    e.play();
    assert!(!e.sink.paused);
}

#[test]
fn load_without_a_new_sink_clears_and_reuses_the_old_one() {
    let bytes = one_second_wav();
    let mut e = GalaxyEngine::new();
    e.set_volume(350);
    let d = e.load(bytes.clone(), probe(&bytes), false).unwrap();
    assert_eq!(d, 1000);
    // The old sink was cleared rather than left half-replaced; the track
    // still queues and plays on it at the stored volume.
    assert_eq!(e.sink.queue.len(), 1);
    assert!(!e.sink.paused);
    assert_eq!(e.sink.volume, 350);
}

#[test]
fn seek_without_a_new_sink_clears_and_reuses_the_old_one() {
    let bytes = one_second_wav();
    let mut e = GalaxyEngine::new();
    e.load(bytes.clone(), probe(&bytes), true).unwrap();
    let g = e.generation();
    e.commit_decode(g, decode(&bytes));
    let out = e.seek(g, 250, DecodeSeekResult::NoDecoder, false);
    assert!(matches!(out.path, SeekPath::Memory { .. }));
    assert_eq!(e.sink.queue.len(), 1);
    assert!(!e.sink.paused);
}

#[test]
fn device_rebind_resumes_from_the_cache_at_the_last_position() {
    let bytes = one_second_wav();
    let mut e = GalaxyEngine::new();
    e.set_volume(620);
    e.load(bytes.clone(), probe(&bytes), true).unwrap();
    let g = e.generation();
    e.commit_decode(g, decode(&bytes));
    let _ = e.seek(g, 500, DecodeSeekResult::NoDecoder, true);
    // Switch the device mid-playback: no restart from time zero, volume
    // and play state carried over.
    let audio = e.update_output_stream(true);
    assert_eq!(e.last_seek_pos_ms, 500);
    assert!(!e.sink.paused);
    assert_eq!(e.sink.volume, 620);
    assert_eq!(e.sink.queue.len(), 1);
    assert!(matches!(e.sink.queue[0].path, GalaxyPath::Memory { offset: 44100 }));
    assert_eq!(audio.unwrap().len(), 44100);
}

#[test]
fn device_rebind_preserves_a_paused_sink() {
    let bytes = one_second_wav();
    let mut e = GalaxyEngine::new();
    e.load(bytes.clone(), probe(&bytes), true).unwrap();
    let g = e.generation();
    e.commit_decode(g, decode(&bytes));
    let _ = e.seek(g, 250, DecodeSeekResult::NoDecoder, true);
    e.pause();
    let _ = e.update_output_stream(true);
    assert!(e.sink.paused);
    assert_eq!(e.last_seek_pos_ms, 250);
    assert_eq!(e.sink.queue.len(), 1);
}

#[test]
fn device_rebind_without_a_cache_queues_a_decoder_seek() {
    let bytes = one_second_wav();
    let mut e = GalaxyEngine::new();
    e.load(bytes.clone(), probe(&bytes), true).unwrap();
    let g = e.generation();
    let _ = e.seek(g, 750, decode_from(&bytes, 750), true);
    let audio = e.update_output_stream(true);
    assert!(audio.is_none());
    assert_eq!(e.sink.queue.len(), 1);
    assert!(matches!(e.sink.queue[0].path, GalaxyPath::DecoderSeek { at_ms: 750 }));
}

#[test]
fn device_rebind_failure_clears_the_old_sink() {
    let bytes = one_second_wav();
    let mut e = GalaxyEngine::new();
    e.load(bytes.clone(), probe(&bytes), true).unwrap();
    assert_eq!(e.sink.queue.len(), 1);
    let audio = e.update_output_stream(false);
    assert!(audio.is_none());
    assert_eq!(e.sink.queue.len(), 0);
    assert!(e.sink.paused);
}
