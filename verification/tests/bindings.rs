use mandelbrot_nav::command::{command_for_key, Command};
use mandelbrot_nav::input::Key;

#[test]
fn zoom_in_has_two_keys() {
    assert_eq!(command_for_key(Key::Add), Command::ZoomIn);
    assert_eq!(command_for_key(Key::F), Command::ZoomIn);
}

#[test]
fn slow_zoom_in_has_one_key() {
    assert_eq!(command_for_key(Key::Z), Command::ZoomInSlow);
}

#[test]
fn zoom_out_has_two_keys() {
    assert_eq!(command_for_key(Key::Subtract), Command::ZoomOut);
    assert_eq!(command_for_key(Key::Space), Command::ZoomOut);
}

#[test]
fn each_pan_has_an_arrow_and_a_letter() {
    assert_eq!(command_for_key(Key::Left), Command::PanLeft);
    assert_eq!(command_for_key(Key::A), Command::PanLeft);
    assert_eq!(command_for_key(Key::Right), Command::PanRight);
    assert_eq!(command_for_key(Key::D), Command::PanRight);
    assert_eq!(command_for_key(Key::Up), Command::PanUp);
    assert_eq!(command_for_key(Key::W), Command::PanUp);
    assert_eq!(command_for_key(Key::Down), Command::PanDown);
    assert_eq!(command_for_key(Key::S), Command::PanDown);
}

#[test]
fn detail_steps_have_two_keys_each() {
    assert_eq!(command_for_key(Key::I), Command::IncreaseDetail);
    assert_eq!(command_for_key(Key::Q), Command::IncreaseDetail);
    assert_eq!(command_for_key(Key::O), Command::DecreaseDetail);
    assert_eq!(command_for_key(Key::E), Command::DecreaseDetail);
}

#[test]
fn escape_quits() {
    assert_eq!(command_for_key(Key::Escape), Command::Quit);
}

#[test]
fn other_keys_are_unrecognized() {
    assert_eq!(command_for_key(Key::Other), Command::Unrecognized);
}
