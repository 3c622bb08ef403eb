use frame_loop::{Event, Key, KeyState, PresentError, Size};

#[test]
fn close_request_ends_the_loop() {
    assert!(Event::CloseRequest.requests_exit());
}

#[test]
fn pressed_escape_ends_the_loop() {
    let event = Event::KeyInput { state: KeyState::Pressed, key: Some(Key::Escape) };
    assert!(event.requests_exit());
}

#[test]
fn released_escape_does_not_end_the_loop() {
    let event = Event::KeyInput { state: KeyState::Released, key: Some(Key::Escape) };
    assert!(!event.requests_exit());
}

#[test]
fn other_keys_do_not_end_the_loop() {
    let pressed = Event::KeyInput { state: KeyState::Pressed, key: Some(Key::Other) };
    let released = Event::KeyInput { state: KeyState::Released, key: Some(Key::Other) };
    let unnamed = Event::KeyInput { state: KeyState::Pressed, key: None };
    assert!(!pressed.requests_exit());
    assert!(!released.requests_exit());
    assert!(!unnamed.requests_exit());
}

#[test]
fn the_remaining_events_do_not_end_the_loop() {
    assert!(!Event::Resize(Size::new(1, 1)).requests_exit());
    assert!(!Event::PointerMove.requests_exit());
    assert!(!Event::Idle.requests_exit());
    assert!(!Event::RedrawRequest.requests_exit());
}

#[test]
fn only_out_of_memory_is_fatal() {
    assert!(PresentError::OutOfMemory.is_fatal());
    assert!(!PresentError::Lost.is_fatal());
    assert!(!PresentError::Outdated.is_fatal());
    assert!(!PresentError::Timeout.is_fatal());
}
