//! Tests of the window event state machine and the frame-loop step.

use framehost::events::{
    handle_event, key_alt_held, key_is_down, key_was_down, AppState, EventAction, WindowEvent,
    KEY_FLAG_ALT_HELD, KEY_FLAG_IS_UP, KEY_FLAG_WAS_DOWN,
};
use framehost::frame::{drain_events, frame};
use framehost::input::{stub_samples, ControllerSample, TrackedKey, VK_F4, VK_W};
use framehost::present::window_dimension;

fn expected_pixel(x: i32, y: i32, ox: i32, oy: i32) -> u32 {
    ((((y + oy) & 0xFF) << 8) | ((x + ox) & 0xFF)) as u32
}

#[test]
fn window_dimension_from_client_rect_corners() {
    let d = window_dimension(0, 0, 1280, 720);
    assert_eq!((d.width, d.height), (1280, 720));
    let d2 = window_dimension(-8, -31, 1288, 689);
    assert_eq!((d2.width, d2.height), (1296, 720));
}

#[test]
fn key_payload_bits_decode() {
    assert!(!key_was_down(0));
    assert!(key_is_down(0));
    assert!(!key_alt_held(0));
    assert!(key_was_down(KEY_FLAG_WAS_DOWN));
    assert!(!key_is_down(KEY_FLAG_IS_UP));
    assert!(key_alt_held(KEY_FLAG_ALT_HELD));
}

#[test]
fn resize_event_reallocates_the_surface() {
    let mut state = AppState::new();
    let action = handle_event(
        &mut state,
        WindowEvent::Resize { client_width: 16, client_height: 9 },
    );
    assert_eq!(action, EventAction::Handled);
    assert_eq!(state.surface.width, 16);
    assert_eq!(state.surface.height, 9);
    assert_eq!(state.surface.stride, 64);
    assert_eq!(state.surface.buffer.len(), 16 * 9 * 4);
    assert!(state.running);
}

#[test]
fn close_and_destroy_clear_the_running_flag() {
    let mut state = AppState::new();
    assert!(state.running);
    handle_event(&mut state, WindowEvent::Close);
    assert!(!state.running);

    let mut state2 = AppState::new();
    handle_event(&mut state2, WindowEvent::Destroy);
    assert!(!state2.running);

    let mut state3 = AppState::new();
    handle_event(&mut state3, WindowEvent::Quit);
    assert!(!state3.running);
}

#[test]
fn activate_event_changes_nothing() {
    let mut state = AppState::new();
    let action = handle_event(&mut state, WindowEvent::ActivateApp);
    assert_eq!(action, EventAction::Handled);
    assert!(state.running);
    assert_eq!(state.x_offset, 0);
}

#[test]
fn unhandled_event_is_delegated() {
    let mut state = AppState::new();
    assert_eq!(handle_event(&mut state, WindowEvent::Unhandled), EventAction::Delegate);
    assert!(state.running);
}

#[test]
fn key_events_latch_on_edges_through_the_handler() {
    let mut state = AppState::new();
    // press: was-down clear, is-up clear
    handle_event(&mut state, WindowEvent::Key { vk: VK_W, flags: 0 });
    assert!(state.keys.get(TrackedKey::KeyW));
    // repeat while held: no edge, latch untouched
    handle_event(&mut state, WindowEvent::Key { vk: VK_W, flags: KEY_FLAG_WAS_DOWN });
    assert!(state.keys.get(TrackedKey::KeyW));
    // release
    handle_event(
        &mut state,
        WindowEvent::Key { vk: VK_W, flags: KEY_FLAG_WAS_DOWN | KEY_FLAG_IS_UP },
    );
    assert!(!state.keys.get(TrackedKey::KeyW));
    assert!(state.running);
}

#[test]
fn alt_f4_clears_the_running_flag_even_without_an_edge() {
    let mut state = AppState::new();
    handle_event(
        &mut state,
        WindowEvent::Key { vk: VK_F4, flags: KEY_FLAG_WAS_DOWN | KEY_FLAG_ALT_HELD },
    );
    assert!(!state.running);

    let mut state2 = AppState::new();
    // F4 without alt held leaves the host running
    handle_event(&mut state2, WindowEvent::Key { vk: VK_F4, flags: 0 });
    assert!(state2.running);
}

#[test]
fn paint_asks_for_a_top_down_blit_of_the_whole_surface() {
    let mut state = AppState::new();
    handle_event(&mut state, WindowEvent::Resize { client_width: 8, client_height: 4 });
    let action = handle_event(
        &mut state,
        WindowEvent::Paint { client_width: 100, client_height: 50 },
    );
    match action {
        EventAction::Present { params } => {
            assert_eq!((params.dst_width, params.dst_height), (100, 50));
            assert_eq!((params.src_width, params.src_height), (8, 4));
            assert_eq!(params.header_width, 8);
            assert_eq!(params.header_height, -4);
            assert_eq!(params.header_planes, 1);
            assert_eq!(params.header_bit_count, 32);
            assert_eq!(params.header_compression, 0);
        },
        other => panic!("expected a present action, got {:?}", other),
    }
}

#[test]
fn paint_on_an_unpaintable_surface_requests_no_blit() {
    let mut state = AppState::new();
    let action = handle_event(
        &mut state,
        WindowEvent::Paint { client_width: 100, client_height: 50 },
    );
    assert_eq!(action, EventAction::Handled);
}

#[test]
fn frame_renders_and_presents_while_running() {
    let mut state = AppState::new();
    handle_event(&mut state, WindowEvent::Resize { client_width: 3, client_height: 2 });
    let events = vec![WindowEvent::ActivateApp];
    let samples = vec![ControllerSample::Connected {
        stick_x: 16384,
        stick_y: -16384,
        buttons: 0,
    }];
    let present = frame(&mut state, &events, &samples, 640, 480);
    assert_eq!(state.x_offset, 4);
    assert_eq!(state.y_offset, -4);
    let params = present.expect("a paintable surface must be presented");
    assert_eq!((params.dst_width, params.dst_height), (640, 480));
    assert_eq!((params.src_width, params.src_height), (3, 2));
    // the payload was filled with the accumulated offsets
    assert_eq!(state.surface.pixel(0, 0), expected_pixel(0, 0, 4, -4));
    assert_eq!(state.surface.pixel(2, 1), expected_pixel(2, 1, 4, -4));
}

#[test]
fn frame_stops_at_a_close_event_mid_drain() {
    let mut state = AppState::new();
    handle_event(&mut state, WindowEvent::Resize { client_width: 3, client_height: 2 });
    state.surface.fill_gradient(9, 9);
    let before = state.surface.buffer.clone();

    // the close arrives between two other events; the frame must not
    // render or present afterwards
    let events = vec![
        WindowEvent::ActivateApp,
        WindowEvent::Close,
        WindowEvent::ActivateApp,
    ];
    let samples = vec![ControllerSample::Connected {
        stick_x: 16384,
        stick_y: 16384,
        buttons: 0,
    }];
    let present = frame(&mut state, &events, &samples, 640, 480);
    assert!(present.is_none());
    assert!(!state.running);
    assert_eq!(state.x_offset, 0);
    assert_eq!(state.y_offset, 0);
    assert_eq!(state.surface.buffer, before);
}

#[test]
fn degraded_driver_leaves_the_accumulator_unchanged_across_frames() {
    let mut state = AppState::new();
    handle_event(&mut state, WindowEvent::Resize { client_width: 2, client_height: 2 });
    let samples = stub_samples(4);
    let no_events: Vec<WindowEvent> = Vec::new();
    for _ in 0..100 {
        let present = frame(&mut state, &no_events, &samples, 320, 240);
        assert!(present.is_some());
    }
    assert_eq!(state.x_offset, 0);
    assert_eq!(state.y_offset, 0);
    assert!(state.running);
}

#[test]
fn drain_applies_events_in_order() {
    let mut state = AppState::new();
    let events = vec![
        WindowEvent::Resize { client_width: 4, client_height: 4 },
        WindowEvent::Resize { client_width: 2, client_height: 1 },
        WindowEvent::Key { vk: VK_W, flags: 0 },
    ];
    drain_events(&mut state, &events);
    assert_eq!(state.surface.width, 2);
    assert_eq!(state.surface.height, 1);
    assert!(state.keys.get(TrackedKey::KeyW));
    assert!(state.running);
}
