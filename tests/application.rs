use nehe::application::{depth_buffer_outdated, LoopAction, LoopState, WindowEvent, KEY_ESCAPE, KEY_F1};

#[test]
fn escape_pressed_quits() {
    let mut s = LoopState::new();
    assert_eq!(s.on_event(WindowEvent::Key { key: KEY_ESCAPE, down: true, repeat: false }), LoopAction::Quit);
    assert_eq!(s.on_event(WindowEvent::Quit), LoopAction::Quit);
}

#[test]
fn escape_released_goes_to_lesson() {
    let mut s = LoopState::new();
    assert_eq!(
        s.on_event(WindowEvent::Key { key: KEY_ESCAPE, down: false, repeat: false }),
        LoopAction::ForwardKey { key: KEY_ESCAPE, down: false, repeat: false }
    );
}

#[test]
fn f1_toggles_fullscreen_as_reported() {
    let mut s = LoopState::new();
    assert!(!s.fullscreen);
    assert_eq!(s.on_event(WindowEvent::Key { key: KEY_F1, down: true, repeat: false }), LoopAction::SetFullscreen(true));
    assert!(!s.fullscreen);
    assert_eq!(s.on_event(WindowEvent::EnterFullscreen), LoopAction::Ignore);
    assert!(s.fullscreen);
    assert_eq!(s.on_event(WindowEvent::Key { key: KEY_F1, down: true, repeat: true }), LoopAction::SetFullscreen(false));
    assert_eq!(s.on_event(WindowEvent::LeaveFullscreen), LoopAction::Ignore);
    assert!(!s.fullscreen);
}

#[test]
fn other_keys_and_resizes_pass_through() {
    let mut s = LoopState::new();
    assert_eq!(
        s.on_event(WindowEvent::Key { key: 0x61, down: true, repeat: true }),
        LoopAction::ForwardKey { key: 0x61, down: true, repeat: true }
    );
    assert_eq!(
        s.on_event(WindowEvent::PixelSizeChanged { width: 1280, height: 720 }),
        LoopAction::Resize { width: 1280, height: 720 }
    );
    assert_eq!(s.on_event(WindowEvent::Other), LoopAction::Ignore);
}

#[test]
fn depth_buffer_recreated_only_on_size_change() {
    assert!(depth_buffer_outdated(true, true, (640, 480), (1280, 720)));
    assert!(depth_buffer_outdated(true, true, (640, 480), (640, 720)));
    assert!(!depth_buffer_outdated(true, true, (640, 480), (640, 480)));
    assert!(!depth_buffer_outdated(false, true, (640, 480), (1280, 720)));
    assert!(!depth_buffer_outdated(true, false, (0, 0), (1280, 720)));
}
