//! The upmix stage on concrete streams: matrix values, silence, clamping.

use playback_core::clamp_sample;
use playback_core::dsp::{mul_div, render_upmixed, GainTable, UpmixSource};
use playback_core::ChannelConfig;

#[test]
fn clamp_confines_to_full_scale() {
    assert_eq!(clamp_sample(40000), 32768);
    assert_eq!(clamp_sample(-40000), -32768);
    assert_eq!(clamp_sample(5), 5);
    assert_eq!(clamp_sample(-32768), -32768);
    assert_eq!(clamp_sample(32768), 32768);
}

#[test]
fn mul_div_truncates_toward_zero() {
    assert_eq!(mul_div(7, 1, 2), 3);
    assert_eq!(mul_div(-7, 1, 2), -3);
    assert_eq!(mul_div(999, 400, 1000), 399);
    assert_eq!(mul_div(-999, 400, 1000), -399);
    assert_eq!(mul_div(0, 1200, 1000), 0);
}

#[test]
fn default_gain_table_values() {
    let g = GainTable::default_table();
    assert_eq!(g.center, 400);
    assert_eq!(g.ambience, 300);
    assert_eq!(g.rear, 400);
    assert_eq!(g.lfe, 1200);
    assert_eq!(g.side, 800);
}

#[test]
fn first_frame_matrix_five_one() {
    // Fresh stage at 44100 Hz: the delay line is longer than one frame, so
    // the delayed signal is still silent, and two cascaded low-pass steps
    // on one frame of mono 750 truncate to zero.
    let mut up = UpmixSource::new(44100, 6, GainTable::default_table());
    let frame = up.next_frame(1000, 500);
    assert_eq!(frame, vec![1000, 500, 600, 0, 150, -150]);
}

#[test]
fn first_frame_matrix_seven_one() {
    let mut up = UpmixSource::new(44100, 8, GainTable::default_table());
    let frame = up.next_frame(1000, 500);
    assert_eq!(frame, vec![1000, 500, 600, 0, 150, -150, 120, -120]);
}

#[test]
fn delay_and_filter_memory_across_frames() {
    // At 50 Hz the delay line has exactly one slot, so the delayed signal
    // equals the current frame; the low-pass memories accumulate across
    // frames.
    let mut up = UpmixSource::new(50, 6, GainTable::default_table());
    let first = up.next_frame(1000, 0);
    assert_eq!(first, vec![1000, 0, 400, 344, 700, -300]);
    let second = up.next_frame(1000, 0);
    assert_eq!(second, vec![1000, 0, 400, 510, 700, -300]);
}

#[test]
fn upmix_of_silence_is_silence_on_every_channel() {
    let samples: Vec<i16> = vec![0; 2000];
    let out = render_upmixed(&samples, 0, 2, 44100, ChannelConfig::Surround51, &GainTable::default_table());
    assert_eq!(out.len(), 1000 * 6);
    assert!(out.iter().all(|&s| s == 0));
}

#[test]
fn upmix_of_full_scale_never_leaves_clamp_range() {
    let samples: Vec<i16> = vec![32767; 4000];
    let out = render_upmixed(&samples, 0, 2, 44100, ChannelConfig::Surround71, &GainTable::default_table());
    assert_eq!(out.len(), 2000 * 8);
    assert!(out.iter().all(|&s| -32768 <= s && s <= 32768));
}

#[test]
fn upmix_of_alternating_full_scale_never_leaves_clamp_range() {
    // Hard ambience: left and right at opposite extremes.
    let mut samples: Vec<i16> = Vec::new();
    for i in 0..4000 {
        samples.push(if i % 2 == 0 { 32767 } else { -32768 });
    }
    let out = render_upmixed(&samples, 0, 2, 44100, ChannelConfig::Surround71, &GainTable::default_table());
    assert!(out.iter().all(|&s| -32768 <= s && s <= 32768));
}

#[test]
fn stereo_target_passes_samples_through() {
    let samples: Vec<i16> = vec![3, -4, 5, -6, 7, -8];
    let out = render_upmixed(&samples, 2, 2, 44100, ChannelConfig::Stereo, &GainTable::default_table());
    assert_eq!(out, vec![5, -6, 7, -8]);
}

#[test]
fn non_stereo_source_passes_samples_through() {
    // A mono source is never upmixed, whatever the target layout.
    let samples: Vec<i16> = vec![9, 8, 7];
    let out = render_upmixed(&samples, 0, 1, 44100, ChannelConfig::Surround51, &GainTable::default_table());
    assert_eq!(out, vec![9, 8, 7]);
}

#[test]
fn odd_trailing_sample_is_dropped_by_the_upmix() {
    let samples: Vec<i16> = vec![100, 200, 300];
    let out = render_upmixed(&samples, 0, 2, 44100, ChannelConfig::Surround51, &GainTable::default_table());
    assert_eq!(out.len(), 6);
}

#[test]
fn channel_config_mapping() {
    assert_eq!(ChannelConfig::from_mode(2), ChannelConfig::Stereo);
    assert_eq!(ChannelConfig::from_mode(6), ChannelConfig::Surround51);
    assert_eq!(ChannelConfig::from_mode(8), ChannelConfig::Surround71);
    assert_eq!(ChannelConfig::from_mode(7), ChannelConfig::Stereo);
    assert_eq!(ChannelConfig::Surround71.channel_count(), 8);
    assert_eq!(ChannelConfig::Surround51.channel_count(), 6);
    assert_eq!(ChannelConfig::Stereo.channel_count(), 2);
}
