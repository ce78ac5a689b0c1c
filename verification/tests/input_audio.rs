//! Tests of key-edge latching, controller sampling and accumulation,
//! driver selection, and the audio handshake.

use framehost::audio::{
    audio_advance, pcm_stereo_format, secondary_buffer_bytes, AudioHandshake,
};
use framehost::input::{
    accumulate_sticks, apply_key_transition, classify_poll, select_controller_driver,
    stick_step, stub_samples, tracked_key, ControllerDriver, ControllerSample, KeyTable,
    TrackedKey, CONTROLLER_STATUS_NOT_CONNECTED, CONTROLLER_STATUS_SUCCESS, MAX_CONTROLLERS,
    VK_ESCAPE, VK_SPACE, VK_W,
};

#[test]
fn key_edge_latch_records_press_and_release_but_not_repeat() {
    let mut table = KeyTable::new();
    let mut edges = 0;

    // down: wasDown=0, isDown=1 — a press edge
    if apply_key_transition(&mut table, VK_W, false, true) {
        edges += 1;
    }
    assert!(table.get(TrackedKey::KeyW));

    // down again: wasDown=1, isDown=1 — a repeat, no edge
    if apply_key_transition(&mut table, VK_W, true, true) {
        edges += 1;
    }
    assert!(table.get(TrackedKey::KeyW));

    // up: wasDown=1, isDown=0 — a release edge
    if apply_key_transition(&mut table, VK_W, true, false) {
        edges += 1;
    }
    assert!(!table.get(TrackedKey::KeyW));

    assert_eq!(edges, 2);
}

#[test]
fn untracked_key_edge_leaves_the_table_unchanged() {
    let mut table = KeyTable::new();
    let before = table;
    let edge = apply_key_transition(&mut table, 0x42, false, true);
    assert!(edge);
    assert_eq!(table, before);
}

#[test]
fn tracked_key_mapping() {
    assert_eq!(tracked_key(VK_W), Some(TrackedKey::KeyW));
    assert_eq!(tracked_key(VK_ESCAPE), Some(TrackedKey::Escape));
    assert_eq!(tracked_key(VK_SPACE), Some(TrackedKey::Space));
    assert_eq!(tracked_key(0x46), None);
}

#[test]
fn stick_step_is_an_arithmetic_shift_by_twelve() {
    assert_eq!(stick_step(16384), 4);
    assert_eq!(stick_step(-16384), -4);
    assert_eq!(stick_step(4095), 0);
    assert_eq!(stick_step(-1), -1);
    assert_eq!(stick_step(i16::MAX), 7);
    assert_eq!(stick_step(i16::MIN), -8);
    assert_eq!(stick_step(0), 0);
}

#[test]
fn connected_stick_accumulates_four_per_frame() {
    let mut x = 0i32;
    let mut y = 0i32;
    let samples = vec![ControllerSample::Connected {
        stick_x: 16384,
        stick_y: -16384,
        buttons: 0,
    }];
    for frame in 1..=3i32 {
        accumulate_sticks(&mut x, &mut y, &samples);
        assert_eq!(x, 4 * frame);
        assert_eq!(y, -4 * frame);
    }
}

#[test]
fn disconnected_slots_are_skipped_in_accumulation() {
    let mut x = 100i32;
    let mut y = -50i32;
    let samples = vec![
        ControllerSample::Disconnected,
        ControllerSample::Connected { stick_x: 8192, stick_y: 0, buttons: 0 },
        ControllerSample::Disconnected,
        ControllerSample::Connected { stick_x: -4096, stick_y: 16384, buttons: 0 },
    ];
    accumulate_sticks(&mut x, &mut y, &samples);
    assert_eq!(x, 100 + 2 - 1);
    assert_eq!(y, -50 + 4);
}

#[test]
fn stub_sampler_reports_every_slot_disconnected() {
    let samples = stub_samples(MAX_CONTROLLERS);
    assert_eq!(samples.len(), 4);
    for s in &samples {
        assert_eq!(*s, ControllerSample::Disconnected);
    }
}

#[test]
fn degraded_sampler_never_moves_the_accumulator() {
    let mut x = 42i32;
    let mut y = -7i32;
    let samples = stub_samples(MAX_CONTROLLERS);
    for _ in 0..1000 {
        accumulate_sticks(&mut x, &mut y, &samples);
    }
    assert_eq!((x, y), (42, -7));
}

#[test]
fn classify_poll_by_status() {
    assert_eq!(
        classify_poll(CONTROLLER_STATUS_SUCCESS, 5, -6, 0x3),
        ControllerSample::Connected { stick_x: 5, stick_y: -6, buttons: 0x3 }
    );
    assert_eq!(
        classify_poll(CONTROLLER_STATUS_NOT_CONNECTED, 5, -6, 0x3),
        ControllerSample::Disconnected
    );
    assert_eq!(classify_poll(87, 0, 0, 0), ControllerSample::Disconnected);
}

#[test]
fn driver_selection_prefers_the_newer_library_and_degrades_to_the_stub() {
    assert_eq!(select_controller_driver(true, true), ControllerDriver::Preferred);
    assert_eq!(select_controller_driver(true, false), ControllerDriver::Preferred);
    assert_eq!(select_controller_driver(false, true), ControllerDriver::Fallback);
    assert_eq!(select_controller_driver(false, false), ControllerDriver::Stub);
}

#[test]
fn pcm_format_fields_follow_from_the_sample_rate() {
    let f = pcm_stereo_format(48000);
    assert_eq!(f.format_tag, 1);
    assert_eq!(f.channels, 2);
    assert_eq!(f.bits_per_sample, 16);
    assert_eq!(f.block_align, 4);
    assert_eq!(f.samples_per_second, 48000);
    assert_eq!(f.avg_bytes_per_second, 192000);
    assert_eq!(secondary_buffer_bytes(&f), 192000);
}

#[test]
fn audio_handshake_reaches_ready_only_through_five_successes() {
    let mut stage = AudioHandshake::AwaitDevice;
    stage = audio_advance(stage, true);
    assert_eq!(stage, AudioHandshake::AwaitCooperativeLevel);
    stage = audio_advance(stage, true);
    assert_eq!(stage, AudioHandshake::AwaitPrimaryBuffer);
    stage = audio_advance(stage, true);
    assert_eq!(stage, AudioHandshake::AwaitPrimaryFormat);
    stage = audio_advance(stage, true);
    assert_eq!(stage, AudioHandshake::AwaitSecondaryBuffer);
    stage = audio_advance(stage, true);
    assert_eq!(stage, AudioHandshake::Ready);
    // ready is terminal, even across a later failure report
    assert_eq!(audio_advance(stage, false), AudioHandshake::Ready);
}

#[test]
fn audio_handshake_failure_is_terminal_at_every_stage() {
    let stages = [
        AudioHandshake::AwaitDevice,
        AudioHandshake::AwaitCooperativeLevel,
        AudioHandshake::AwaitPrimaryBuffer,
        AudioHandshake::AwaitPrimaryFormat,
        AudioHandshake::AwaitSecondaryBuffer,
    ];
    for s in stages {
        let failed = audio_advance(s, false);
        assert_eq!(failed, AudioHandshake::Unavailable);
        assert_eq!(audio_advance(failed, true), AudioHandshake::Unavailable);
    }
}
