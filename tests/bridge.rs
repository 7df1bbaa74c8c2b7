use spice_bridge::backend::SpiceBackend;
use spice_bridge::events::{
    translate_channel_event, ChannelEventKind, ChannelKind, ConnectionState, DisplayCloseEvent, SessionEvent,
};
use spice_bridge::geometry::compute_geometry;
use spice_bridge::input::{
    button_id, button_mask, map_host_button, protocol_call, HostEvent, InputCall, InputEvent, InputMapper,
    InputQueue, MouseButton,
};
use spice_bridge::pixels::{convert_surface, FrameSlot};

#[test]
fn conversion_forces_alpha_and_keeps_colour() {
    let src: Vec<u8> = (0..2 * 2 * 4).map(|i| i as u8).collect();
    let out = convert_surface(2, 2, &src).unwrap();
    assert_eq!(out.len(), src.len());
    for p in 0..4 {
        assert_eq!(out[4 * p], src[4 * p]);
        assert_eq!(out[4 * p + 1], src[4 * p + 1]);
        assert_eq!(out[4 * p + 2], src[4 * p + 2]);
        assert_eq!(out[4 * p + 3], 0xFF);
    }
}

#[test]
fn conversion_of_empty_surface() {
    assert_eq!(convert_surface(0, 0, &[]), Some(vec![]));
    assert_eq!(convert_surface(0, 7, &[]), Some(vec![]));
}

#[test]
fn conversion_rejects_wrong_length() {
    assert_eq!(convert_surface(2, 2, &[0u8; 15]), None);
    assert_eq!(convert_surface(2, 2, &[0u8; 17]), None);
    assert_eq!(convert_surface(1, 1, &[]), None);
    assert_eq!(convert_surface(u32::MAX, u32::MAX, &[0u8; 4]), None);
}

#[test]
fn failed_conversion_keeps_previous_frame() {
    let mut slot = FrameSlot::new();
    assert!(slot.update(1, 1, &[1, 2, 3, 4]));
    assert!(!slot.update(2, 2, &[9u8; 12]));
    let f = slot.latest.as_ref().unwrap();
    assert_eq!((f.width, f.height), (1, 1));
    assert_eq!(f.pixels, vec![1, 2, 3, 0xFF]);
}

#[test]
fn failed_conversion_on_empty_slot_keeps_it_empty() {
    let mut slot = FrameSlot::new();
    assert!(!slot.update(3, 1, &[0u8; 8]));
    assert!(slot.latest.is_none());
}

#[test]
fn invalidate_with_bgr_buffer() {
    let mut src = vec![0u8; 100 * 50 * 4];
    src[0] = 0x10;
    let mut backend = SpiceBackend::new();
    assert!(backend.on_surface(100, 50, &src));
    let f = backend.frames.latest.as_ref().unwrap();
    assert_eq!((f.width, f.height), (100, 50));
    assert_eq!(&f.pixels[0..4], &[0x10, 0x00, 0x00, 0xFF]);
    for p in 1..100 * 50 {
        assert_eq!(&f.pixels[4 * p..4 * p + 4], &[0, 0, 0, 0xFF]);
    }
}

#[test]
fn geometry_fills_width_and_centres_vertically() {
    let g = compute_geometry(200, 100, 400, 300).unwrap();
    assert_eq!(g.denom, 400);
    assert_eq!((g.scale_num, g.scale_den), (400, 200));
    assert_eq!(g.x_num, 0);
    assert_eq!(g.y_num, 50 * 400);
    assert_eq!(g.width_num, 400 * 400);
    assert_eq!(g.height_num, 200 * 400);
}

#[test]
fn geometry_fills_height_and_centres_horizontally() {
    let g = compute_geometry(100, 100, 300, 200).unwrap();
    assert_eq!((g.scale_num, g.scale_den), (200, 100));
    assert_eq!(g.denom, 200);
    assert_eq!(g.x_num, 50 * 200);
    assert_eq!(g.y_num, 0);
    assert_eq!(g.width_num, 200 * 200);
    assert_eq!(g.height_num, 200 * 200);
}

#[test]
fn geometry_keeps_aspect_ratio() {
    for (fw, fh, vw, vh) in [(200u32, 100u32, 400u32, 300u32), (3, 7, 1, 1), (1920, 1080, 1000, 1000), (5, 5, 13, 2)] {
        let g = compute_geometry(fw, fh, vw, vh).unwrap();
        assert_eq!(g.width_num * fh as i128, g.height_num * fw as i128);
        assert!(g.width_num <= vw as i128 * g.denom && g.height_num <= vh as i128 * g.denom);
        assert!(g.width_num == vw as i128 * g.denom || g.height_num == vh as i128 * g.denom);
    }
}

#[test]
fn geometry_needs_a_frame_with_area() {
    assert!(compute_geometry(0, 10, 10, 10).is_none());
    assert!(compute_geometry(10, 0, 10, 10).is_none());
    assert!(compute_geometry(0, 0, 0, 0).is_none());
}

#[test]
fn empty_viewport_gives_empty_centred_rectangle() {
    let g = compute_geometry(10, 20, 0, 30).unwrap();
    assert_eq!((g.scale_num, g.width_num, g.height_num), (0, 0, 0));
    assert_eq!((g.x_num, g.y_num * 2), (0, 30 * g.denom));
    let g = compute_geometry(10, 20, 40, 0).unwrap();
    assert_eq!((g.scale_num, g.width_num, g.height_num), (0, 0, 0));
    assert_eq!((g.x_num * 2, g.y_num), (40 * g.denom, 0));
    let g = compute_geometry(10, 20, 0, 0).unwrap();
    assert_eq!((g.x_num, g.y_num, g.width_num, g.height_num, g.scale_num), (0, 0, 0, 0, 0));
}

#[test]
fn empty_viewport_forwards_buttons_and_keys_but_not_moves() {
    let mut backend = SpiceBackend::new();
    backend.connect();
    assert!(backend.on_surface(2, 2, &[0u8; 16]));
    assert!(backend.get_render_data(0, 5).is_some());
    assert_eq!(
        backend.on_event(HostEvent::MouseDown { button: 3 }, 0, 5),
        Some(InputEvent::ButtonPress(MouseButton::Middle))
    );
    assert_eq!(backend.input.pressed_button, Some(MouseButton::Middle));
    assert_eq!(backend.on_event(HostEvent::MouseMove { x: 1, y: 1 }, 0, 5), None);
    assert_eq!(
        backend.on_event(HostEvent::MouseUp { button: 3 }, 5, 0),
        Some(InputEvent::ButtonRelease(MouseButton::Middle))
    );
    assert_eq!(backend.input.pressed_button, None);
    assert_eq!(backend.on_event(HostEvent::KeyDown { scancode: Some(9) }, 0, 0), Some(InputEvent::KeyPress(9)));
    assert_eq!(backend.on_event(HostEvent::KeyUp { scancode: Some(9) }, 0, 0), Some(InputEvent::KeyRelease(9)));
}

#[test]
fn pointer_corners_map_to_frame_corners() {
    let g = compute_geometry(200, 100, 400, 300).unwrap();
    assert_eq!(g.map_pointer(0, 50), (0, 0));
    assert_eq!(g.map_pointer(400, 250), (200, 100));
    let g = compute_geometry(100, 100, 300, 200).unwrap();
    assert_eq!(g.map_pointer(50, 0), (0, 0));
    assert_eq!(g.map_pointer(250, 200), (100, 100));
}

#[test]
fn pointer_mapping_truncates_toward_zero() {
    let g = compute_geometry(200, 100, 400, 300).unwrap();
    assert_eq!(g.map_pointer(3, 53), (1, 1));
    assert_eq!(g.map_pointer(0, 49), (0, 0));
    assert_eq!(g.map_pointer(-3, 47), (-1, -1));
}

#[test]
fn pointer_mapping_saturates() {
    let g = compute_geometry(u32::MAX, 1, 1, 1).unwrap();
    assert_eq!(g.map_pointer(i32::MAX, 0).0, i32::MAX);
    assert_eq!(g.map_pointer(i32::MIN, 0).0, i32::MIN);
}

#[test]
fn host_buttons_map_to_protocol_buttons() {
    assert_eq!(map_host_button(1), Some(MouseButton::Left));
    assert_eq!(map_host_button(2), Some(MouseButton::Right));
    assert_eq!(map_host_button(3), Some(MouseButton::Middle));
    assert_eq!(map_host_button(0), None);
    assert_eq!(map_host_button(4), None);
    assert_eq!(map_host_button(-1), None);
    assert_eq!((button_id(MouseButton::Left), button_mask(MouseButton::Left)), (1, 1));
    assert_eq!((button_id(MouseButton::Middle), button_mask(MouseButton::Middle)), (2, 2));
    assert_eq!((button_id(MouseButton::Right), button_mask(MouseButton::Right)), (3, 4));
}

#[test]
fn unknown_buttons_are_not_forwarded() {
    let g = compute_geometry(10, 10, 10, 10);
    let mut m = InputMapper::new();
    for b in [0, 4, 5, 99, -2] {
        assert_eq!(m.on_event(HostEvent::MouseDown { button: b }, g), None);
        assert_eq!(m.on_event(HostEvent::MouseUp { button: b }, g), None);
        assert_eq!(m.pressed_button, None);
    }
}

#[test]
fn drag_carries_the_held_button() {
    let g = compute_geometry(10, 10, 10, 10);
    let mut m = InputMapper::new();
    assert_eq!(m.on_event(HostEvent::MouseDown { button: 1 }, g), Some(InputEvent::ButtonPress(MouseButton::Left)));
    assert_eq!(m.on_event(HostEvent::MouseMove { x: 4, y: 6 }, g), Some(InputEvent::Position(4, 6, Some(MouseButton::Left))));
    assert_eq!(m.on_event(HostEvent::MouseUp { button: 1 }, g), Some(InputEvent::ButtonRelease(MouseButton::Left)));
    assert_eq!(m.on_event(HostEvent::MouseMove { x: 5, y: 5 }, g), Some(InputEvent::Position(5, 5, None)));
}

#[test]
fn keys_need_a_scancode() {
    let g = compute_geometry(10, 10, 10, 10);
    let mut m = InputMapper::new();
    assert_eq!(m.on_event(HostEvent::KeyDown { scancode: Some(30) }, g), Some(InputEvent::KeyPress(30)));
    assert_eq!(m.on_event(HostEvent::KeyUp { scancode: Some(30) }, g), Some(InputEvent::KeyRelease(30)));
    assert_eq!(m.on_event(HostEvent::KeyDown { scancode: None }, g), None);
    assert_eq!(m.on_event(HostEvent::KeyUp { scancode: None }, g), None);
}

#[test]
fn nothing_is_mapped_without_geometry() {
    let mut m = InputMapper::new();
    assert_eq!(m.on_event(HostEvent::MouseDown { button: 1 }, None), None);
    assert_eq!(m.pressed_button, None);
}

#[test]
fn pointer_down_right_then_move() {
    let mut backend = SpiceBackend::new();
    backend.connect();
    assert!(backend.on_surface(200, 100, &vec![0u8; 200 * 100 * 4]));
    assert_eq!(
        backend.on_event(HostEvent::MouseDown { button: 2 }, 400, 300),
        Some(InputEvent::ButtonPress(MouseButton::Right))
    );
    // scale 2, rectangle at (0, 50): ((210 - 0) / 2, (160 - 50) / 2)
    assert_eq!(
        backend.on_event(HostEvent::MouseMove { x: 210, y: 160 }, 400, 300),
        Some(InputEvent::Position(105, 55, Some(MouseButton::Right)))
    );
}

#[test]
fn backend_ignores_input_before_connect_or_frame() {
    let mut backend = SpiceBackend::new();
    assert!(backend.on_surface(2, 2, &[0u8; 16]));
    assert_eq!(backend.on_event(HostEvent::KeyDown { scancode: Some(1) }, 10, 10), None);
    let mut backend = SpiceBackend::new();
    backend.connect();
    assert_eq!(backend.on_event(HostEvent::KeyDown { scancode: Some(1) }, 10, 10), None);
    assert!(backend.get_render_data(10, 10).is_none());
}

#[test]
fn queue_dispatches_in_order() {
    let a = InputEvent::ButtonPress(MouseButton::Left);
    let b = InputEvent::Position(3, 4, Some(MouseButton::Left));
    let c = InputEvent::KeyRelease(17);
    let mut q = InputQueue::new();
    q.push(a);
    q.push(b);
    q.push(c);
    assert_eq!(q.len(), 3);
    let mut dispatched = Vec::new();
    while let Some(call) = q.dispatch_next() {
        dispatched.push(call);
    }
    assert_eq!(
        dispatched,
        vec![
            InputCall::ButtonPress { button: 1, mask: 1 },
            InputCall::Position { x: 3, y: 4, display: 0, mask: 1 },
            InputCall::KeyRelease { scancode: 17 },
        ]
    );
    assert_eq!(q.pop(), None);
}

#[test]
fn protocol_calls_carry_button_masks() {
    assert_eq!(protocol_call(InputEvent::Position(1, 2, None)), InputCall::Position { x: 1, y: 2, display: 0, mask: 0 });
    assert_eq!(
        protocol_call(InputEvent::Position(1, 2, Some(MouseButton::Right))),
        InputCall::Position { x: 1, y: 2, display: 0, mask: 4 }
    );
    assert_eq!(
        protocol_call(InputEvent::ButtonRelease(MouseButton::Middle)),
        InputCall::ButtonRelease { button: 2, mask: 2 }
    );
    assert_eq!(protocol_call(InputEvent::KeyPress(5)), InputCall::KeyPress { scancode: 5 });
}

fn failure(ev: ChannelEventKind) -> (i32, String) {
    match translate_channel_event(ChannelKind::Main, ev) {
        Some(SessionEvent::ConnectFail(f)) => (f.reason(), f.message().to_string()),
        other => panic!("expected a connect failure, got {:?}", other),
    }
}

#[test]
fn connect_error_reports_code_one() {
    let (code, message) = failure(ChannelEventKind::ErrorConnect);
    assert_eq!(code, 1);
    assert!(message.contains("connect error"));
}

#[test]
fn main_channel_failures_have_stable_codes() {
    assert_eq!(failure(ChannelEventKind::ErrorTls), (2, "tls error".to_string()));
    assert_eq!(failure(ChannelEventKind::ErrorLink), (3, "link error".to_string()));
    assert_eq!(failure(ChannelEventKind::ErrorAuth), (4, "auth error".to_string()));
    assert_eq!(failure(ChannelEventKind::ErrorIo), (5, "io error".to_string()));
}

#[test]
fn lifecycle_events_by_channel() {
    assert!(matches!(translate_channel_event(ChannelKind::Main, ChannelEventKind::Opened), Some(SessionEvent::ConnectSuccess(_))));
    assert!(translate_channel_event(ChannelKind::Main, ChannelEventKind::Closed).is_none());
    assert!(translate_channel_event(ChannelKind::Main, ChannelEventKind::Idle).is_none());
    assert!(translate_channel_event(ChannelKind::Main, ChannelEventKind::Switching).is_none());
    assert!(translate_channel_event(ChannelKind::Main, ChannelEventKind::Unknown).is_none());
    assert!(matches!(translate_channel_event(ChannelKind::Display, ChannelEventKind::Opened), Some(SessionEvent::DisplayOpen(_))));
    assert!(matches!(translate_channel_event(ChannelKind::Display, ChannelEventKind::Closed), Some(SessionEvent::DisplayClose(_))));
    assert!(translate_channel_event(ChannelKind::Display, ChannelEventKind::ErrorIo).is_none());
    assert!(translate_channel_event(ChannelKind::Inputs, ChannelEventKind::Opened).is_none());
    assert!(translate_channel_event(ChannelKind::Other, ChannelEventKind::ErrorConnect).is_none());
}

#[test]
fn connection_state_follows_session_events() {
    let mut backend = SpiceBackend::new();
    assert!(matches!(backend.connection, ConnectionState::Disconnected));
    backend.connect();
    assert!(matches!(backend.connection, ConnectionState::Connecting));
    backend.on_session_event(&translate_channel_event(ChannelKind::Main, ChannelEventKind::Opened).unwrap());
    assert!(backend.connection.is_connected());
    backend.on_session_event(&SessionEvent::DisplayClose(DisplayCloseEvent));
    assert!(matches!(backend.connection, ConnectionState::Disconnected));
}

#[test]
fn connection_failure_is_recorded() {
    let mut state = ConnectionState::new();
    state.start();
    state.on_session_event(&translate_channel_event(ChannelKind::Main, ChannelEventKind::ErrorAuth).unwrap());
    match &state {
        ConnectionState::Failed { reason, message } => {
            assert_eq!(*reason, 4);
            assert_eq!(message, "auth error");
        }
        other => panic!("expected a failure, got {:?}", other),
    }
    state.on_session_event(&translate_channel_event(ChannelKind::Main, ChannelEventKind::Opened).unwrap());
    assert!(matches!(state, ConnectionState::Failed { .. }));
}
