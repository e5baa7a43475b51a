//! Raw-event normalization: pointer tracking and the rewriting of file
//! drops into synthetic pointer events.

use window_core::geom::Point;
use window_core::geom::Size;
use window_core::input::FileDropEvent;
use window_core::input::PlatformInput;
use window_core::keymap::Modifiers;
use window_core::window::Window;

#[test]
fn mouse_moves_track_the_pointer() {
    let mut w = Window::new(Size::new(800, 600));
    let d = w.dispatch_event(
        PlatformInput::MouseMove {
            position: Point::new(5, 6),
            pressed_button: None,
            modifiers: Modifiers::none(),
        },
        false,
    );
    assert!(d.is_mouse && !d.is_keyboard);
    assert!(!d.start_drag && !d.end_drag && !d.activate);
    assert_eq!(w.mouse_position, Point::new(5, 6));
}

#[test]
fn file_drop_entered_becomes_a_drag_move() {
    let mut w = Window::new(Size::new(800, 600));
    let d = w.dispatch_event(
        PlatformInput::FileDrop(FileDropEvent::Entered { position: Point::new(7, 8) }),
        false,
    );
    assert!(d.start_drag);
    assert!(d.is_mouse);
    assert_eq!(w.mouse_position, Point::new(7, 8));
    match d.event {
        PlatformInput::MouseMove { position, pressed_button, .. } => {
            assert_eq!(position, Point::new(7, 8));
            assert_eq!(pressed_button, Some(window_core::input::LEFT_MOUSE_BUTTON));
        },
        _ => panic!("a file drop entering must become a pointer move"),
    }
    // With a drag already active, entering again starts no second drag.
    let d = w.dispatch_event(
        PlatformInput::FileDrop(FileDropEvent::Pending { position: Point::new(9, 9) }),
        true,
    );
    assert!(!d.start_drag);
    assert_eq!(w.mouse_position, Point::new(9, 9));
}

#[test]
fn file_drop_submit_becomes_a_release_and_activates() {
    let mut w = Window::new(Size::new(800, 600));
    let d = w.dispatch_event(
        PlatformInput::FileDrop(FileDropEvent::Submit { position: Point::new(3, 4) }),
        true,
    );
    assert!(d.activate);
    match d.event {
        PlatformInput::MouseUp { position, click_count, .. } => {
            assert_eq!(position, Point::new(3, 4));
            assert_eq!(click_count, 1);
        },
        _ => panic!("a file drop must become a pointer release"),
    }
}

#[test]
fn file_drop_exited_cancels_the_drag() {
    let mut w = Window::new(Size::new(800, 600));
    let d = w.dispatch_event(PlatformInput::FileDrop(FileDropEvent::Exited), true);
    assert!(d.end_drag);
    assert!(matches!(d.event, PlatformInput::FileDrop(FileDropEvent::Exited)));
}

#[test]
fn key_events_go_to_the_keyboard_path() {
    let mut w = Window::new(Size::new(800, 600));
    let ks = window_core::keymap::Keystroke::new("a".to_owned(), Modifiers::none());
    let d = w.dispatch_event(PlatformInput::KeyDown { keystroke: ks }, false);
    assert!(d.is_keyboard && !d.is_mouse);
    let mut ctrl = Modifiers::none();
    ctrl.control = true;
    let d = w.dispatch_event(PlatformInput::ModifiersChanged { modifiers: ctrl }, false);
    assert!(d.is_keyboard);
    assert_eq!(w.modifiers, ctrl);
}
