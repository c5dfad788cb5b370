use wgpu_native::framework::{on_event, EventKind, LoopStep};

#[test]
fn a_resize_is_logged() {
    assert_eq!(on_event(EventKind::Resized), LoopStep::Log);
}

#[test]
fn a_close_request_ends_the_loop() {
    assert_eq!(on_event(EventKind::CloseRequested), LoopStep::Stop);
}

#[test]
fn the_escape_key_ends_the_loop() {
    assert_eq!(on_event(EventKind::EscapePressed), LoopStep::Stop);
}

#[test]
fn other_window_events_go_to_the_example() {
    assert_eq!(on_event(EventKind::OtherWindowEvent), LoopStep::Update);
}

#[test]
fn events_that_are_not_of_the_window_are_skipped() {
    assert_eq!(on_event(EventKind::NotAWindowEvent), LoopStep::Skip);
}
