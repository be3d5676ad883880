use capture_core::format::BufferLayout;
use capture_core::level::{isqrt, LEVEL_WINDOW};
use capture_core::mixer::AudioMixer;
use capture_core::FULL_SCALE;

#[test]
fn mic_only_passes_samples_through_unmodified() {
    let mut m = AudioMixer::new(false, true, 64);
    m.accept_mic(&vec![100, -200, 300], false);
    assert_eq!(m.process(), vec![100, -200, 300]);
}

#[test]
fn silent_desktop_source_never_stalls_the_microphone() {
    let mut m = AudioMixer::new(true, true, 64);
    m.accept_mic(&vec![5, 6, 7], false);
    // The desktop source is enabled but delivers nothing at all.
    assert_eq!(m.process(), vec![5, 6, 7]);
}

#[test]
fn both_sources_mix_tick_by_tick_with_silence_on_underrun() {
    let mut m = AudioMixer::new(true, true, 64);
    m.accept_mic(&vec![100, 200, 300], false);
    m.accept_system(&vec![11, 22], BufferLayout::InterleavedStereo, false);
    assert_eq!(m.process(), vec![111, 222, 300]);
}

#[test]
fn mixing_clips_loud_sources() {
    let mut m = AudioMixer::new(true, true, 64);
    m.accept_mic(&vec![900_000, -900_000], false);
    m.accept_system(&vec![900_000, -900_000], BufferLayout::InterleavedStereo, false);
    assert_eq!(m.process(), vec![FULL_SCALE, -FULL_SCALE]);
}

#[test]
fn desktop_only_degenerates_to_pass_through() {
    let mut m = AudioMixer::new(true, false, 64);
    m.accept_system(&vec![1, 2, 3], BufferLayout::InterleavedStereo, false);
    assert_eq!(m.process(), vec![1, 2, 3]);
    // Microphone chunks are ignored by the mix when the source is off,
    // and the mic queue is left alone.
    m.accept_mic(&vec![9], false);
    assert_eq!(m.process(), Vec::<i32>::new());
}

#[test]
fn no_enabled_source_produces_nothing() {
    let mut m = AudioMixer::new(false, false, 64);
    m.accept_mic(&vec![1], false);
    m.accept_system(&vec![2], BufferLayout::InterleavedStereo, false);
    assert_eq!(m.process(), Vec::<i32>::new());
}

#[test]
fn paused_chunks_are_consumed_but_not_queued() {
    let mut m = AudioMixer::new(true, true, 64);
    m.accept_mic(&vec![1, 2], true);
    m.accept_system(&vec![3, 4], BufferLayout::InterleavedStereo, true);
    assert_eq!(m.process(), Vec::<i32>::new());
}

#[test]
fn planar_desktop_chunks_are_interleaved_before_mixing() {
    let mut m = AudioMixer::new(true, false, 64);
    m.accept_system(&vec![1, 2, 10, 20], BufferLayout::PlanarStereo, false);
    assert_eq!(m.process(), vec![1, 10, 2, 20]);
}

#[test]
fn level_publishes_the_rms_after_one_full_window() {
    let mut m = AudioMixer::new(false, true, 3000);
    assert_eq!(m.level(), 0);
    let window = vec![300_000; LEVEL_WINDOW as usize];
    m.accept_mic(&window, false);
    m.process();
    // Every sample of the window is the same, so the root mean square is
    // that sample.
    assert_eq!(m.level(), 300_000);
}

#[test]
fn level_stays_unpublished_before_the_window_fills() {
    let mut m = AudioMixer::new(false, true, 3000);
    let almost = vec![300_000; LEVEL_WINDOW as usize - 1];
    m.accept_mic(&almost, false);
    m.process();
    assert_eq!(m.level(), 0);
}

#[test]
fn master_idle_follows_the_master_queue() {
    let mut m = AudioMixer::new(true, true, 16);
    assert!(m.master_idle());
    m.accept_system(&vec![1], BufferLayout::InterleavedStereo, false);
    // The desktop source is not the master while the microphone is enabled.
    assert!(m.master_idle());
    m.accept_mic(&vec![2], false);
    assert!(!m.master_idle());
    m.process();
    assert!(m.master_idle());

    let mut sys_master = AudioMixer::new(true, false, 16);
    assert!(sys_master.master_idle());
    sys_master.accept_system(&vec![1], BufferLayout::InterleavedStereo, false);
    assert!(!sys_master.master_idle());

    let idle = AudioMixer::new(false, false, 16);
    assert!(idle.master_idle());
}

#[test]
fn isqrt_rounds_down() {
    assert_eq!(isqrt(0), 0);
    assert_eq!(isqrt(1), 1);
    assert_eq!(isqrt(2), 1);
    assert_eq!(isqrt(3), 1);
    assert_eq!(isqrt(4), 2);
    assert_eq!(isqrt(24), 4);
    assert_eq!(isqrt(25), 5);
    assert_eq!(isqrt(1_000_000_000_000), 1_000_000);
    assert_eq!(isqrt(u64::MAX), 4_294_967_295);
}
