use cube::cursor::Cursor;
use cube::input::{Event, Input};

const Q: u32 = 26;
const W: u32 = 32;

#[test]
fn cursor_starts_at_rest() {
    let cursor = Cursor::new(400, 300);
    assert_eq!(cursor.get_delta(), (0, 0));
    assert_eq!(cursor.get_center(), (400, 300));
}

#[test]
fn cursor_measures_from_the_center() {
    let mut cursor = Cursor::new(400, 300);
    assert_eq!(cursor.update(410, 280), (400, 300));
    assert_eq!(cursor.get_delta(), (10, 20));
    assert_eq!(cursor.update(390, 330), (400, 300));
    assert_eq!(cursor.get_delta(), (-10, -30));
    assert_eq!(cursor.update(400, 300), (400, 300));
    assert_eq!(cursor.get_delta(), (0, 0));
}

#[test]
fn cursor_center_can_move() {
    let mut cursor = Cursor::new(400, 300);
    cursor.update(401, 299);
    cursor.update_center(100, 50);
    assert_eq!(cursor.get_delta(), (1, 1));
    assert_eq!(cursor.update(90, 60), (100, 50));
    assert_eq!(cursor.get_delta(), (-10, -10));
}

#[test]
fn cursor_at_the_limits() {
    let mut cursor = Cursor::new(0, -1);
    assert_eq!(cursor.update(i32::MAX, i32::MIN), (0, -1));
    assert_eq!(cursor.get_delta(), (i32::MAX, i32::MAX));
}

#[test]
fn input_starts_empty() {
    let input = Input::new(800, 601, Q);
    assert_eq!(input.cursor().get_center(), (400, 300));
    assert!(!input.should_close());
    assert!(!input.is_pressed(Q));
    assert!(!input.is_pressed(W));
    assert_eq!(input.cursor().get_delta(), (0, 0));
}

#[test]
fn closed_window_asks_for_the_end() {
    let mut input = Input::new(800, 600, Q);
    assert_eq!(input.update(&Event::Other), None);
    assert!(!input.should_close());
    assert_eq!(input.update(&Event::Closed), None);
    assert!(input.should_close());
    assert_eq!(input.update(&Event::Other), None);
    assert!(input.should_close());
}

#[test]
fn quit_key_asks_for_the_end_when_it_goes_down() {
    let mut input = Input::new(800, 600, Q);
    input.update(&Event::KeyboardInput(false, Some(Q)));
    assert!(!input.should_close());
    input.update(&Event::KeyboardInput(true, Some(W)));
    assert!(!input.should_close());
    input.update(&Event::KeyboardInput(true, None));
    assert!(!input.should_close());
    input.update(&Event::KeyboardInput(true, Some(Q)));
    assert!(input.should_close());
    assert!(input.is_pressed(Q));
    input.update(&Event::KeyboardInput(false, Some(Q)));
    assert!(input.should_close());
    assert!(!input.is_pressed(Q));
}

#[test]
fn keys_are_down_until_they_go_up() {
    let mut input = Input::new(800, 600, Q);
    assert_eq!(input.update(&Event::KeyboardInput(true, Some(W))), None);
    assert!(input.is_pressed(W));
    assert!(!input.is_pressed(W + 1));
    input.update(&Event::KeyboardInput(true, Some(W + 1)));
    input.update(&Event::KeyboardInput(false, Some(W)));
    assert!(!input.is_pressed(W));
    assert!(input.is_pressed(W + 1));
}

#[test]
fn pointer_is_measured_from_the_middle_and_put_back() {
    let mut input = Input::new(800, 601, Q);
    assert_eq!(input.update(&Event::MouseMoved(410, 290)), Some((400, 300)));
    assert_eq!(input.cursor().get_delta(), (10, 10));
    assert_eq!(input.update(&Event::Resized(200, 101)), None);
    assert_eq!(input.cursor().get_delta(), (10, 10));
    assert_eq!(input.update(&Event::MouseMoved(100, 60)), Some((100, 50)));
    assert_eq!(input.cursor().get_delta(), (0, -10));
}

#[test]
fn middle_of_a_negative_size_rounds_towards_zero() {
    let mut input = Input::new(-5, -1, Q);
    assert_eq!(input.update(&Event::MouseMoved(0, 0)), Some((-2, 0)));
    assert_eq!(input.cursor().get_delta(), (2, 0));
}

#[test]
fn can_update_tells_what_update_takes() {
    let mut cursor = Cursor::new(-2, 2);
    assert!(cursor.can_update(0, 0));
    assert!(cursor.can_update(i32::MAX - 2, i32::MIN + 3));
    assert!(!cursor.can_update(i32::MAX - 1, 0));
    assert!(!cursor.can_update(0, i32::MIN + 2));
    cursor.update_center(2, -2);
    assert!(cursor.can_update(i32::MIN + 2, i32::MAX - 2));
    assert!(!cursor.can_update(i32::MIN + 1, 0));
    assert!(!cursor.can_update(0, i32::MAX));

    let input = Input::new(-4, 4, Q);
    assert!(input.can_update(&Event::Closed));
    assert!(input.can_update(&Event::Resized(i32::MIN, i32::MAX)));
    assert!(input.can_update(&Event::MouseMoved(0, 0)));
    assert!(!input.can_update(&Event::MouseMoved(i32::MAX, 0)));
}
