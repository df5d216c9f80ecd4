use speed_reading::color::Rgba;
use speed_reading::input::InputEvent;
use speed_reading::input::KeySet;
use speed_reading::reader::Reader;

fn rgb(red: u8, green: u8, blue: u8) -> Rgba {
    Rgba { red, green, blue, alpha: 255 }
}

fn no_rainbow() -> Rgba {
    rgb(0, 0, 0)
}

#[test]
fn no_keys_change_nothing() {
    let mut reader = Reader::new();
    let before_background = reader.background_color;
    let before_text = reader.text_color;
    reader.apply_input(&KeySet::none(), false, no_rainbow());
    assert_eq!(reader.background_color, before_background);
    assert_eq!(reader.text_color, before_text);
    assert_eq!(reader.text_size, 32);
    assert_eq!(reader.speed, 0);
}

#[test]
fn letter_keys_set_colors() {
    let mut reader = Reader::new();
    let mut keys = KeySet::none();
    keys.q = true;
    reader.apply_input(&keys, false, no_rainbow());
    assert_eq!(reader.background_color, rgb(255, 0, 0));

    let mut keys = KeySet::none();
    keys.u = true;
    keys.g = true;
    reader.apply_input(&keys, false, no_rainbow());
    assert_eq!(reader.background_color, rgb(0, 0, 128));
    assert_eq!(reader.text_color, rgb(255, 0, 0));
}

#[test]
fn later_assignments_win() {
    let mut reader = Reader::new();
    let mut keys = KeySet::none();
    keys.q = true;
    keys.f = true;
    reader.apply_input(&keys, false, no_rainbow());
    assert_eq!(reader.background_color, rgb(255, 0, 255));

    let mut keys = KeySet::none();
    keys.p = true;
    keys.a = true;
    reader.apply_input(&keys, false, no_rainbow());
    assert_eq!(reader.text_color, rgb(255, 255, 255));
}

#[test]
fn two_key_chords_set_both_colors() {
    let mut reader = Reader::new();
    let mut keys = KeySet::none();
    keys.v = true;
    keys.c = true;
    reader.apply_input(&keys, false, no_rainbow());
    assert_eq!(reader.background_color, rgb(255, 255, 255));
    assert_eq!(reader.text_color, rgb(0, 0, 0));

    let mut keys = KeySet::none();
    keys.z = true;
    keys.x = true;
    reader.apply_input(&keys, false, no_rainbow());
    assert_eq!(reader.background_color, rgb(0, 0, 0));
    assert_eq!(reader.text_color, rgb(255, 255, 255));
}

#[test]
fn rainbow_chord_takes_the_frame_color_rotated() {
    let mut reader = Reader::new();
    let mut keys = KeySet::none();
    keys.num1 = true;
    keys.num2 = true;
    keys.num3 = true;
    reader.apply_input(&keys, false, rgb(10, 20, 30));
    assert_eq!(reader.background_color, rgb(10, 20, 30));
    assert_eq!(reader.text_color, rgb(30, 10, 20));
}

#[test]
fn incomplete_rainbow_chord_does_nothing() {
    let mut reader = Reader::new();
    let before = reader.background_color;
    let mut keys = KeySet::none();
    keys.num1 = true;
    keys.num2 = true;
    reader.apply_input(&keys, false, rgb(10, 20, 30));
    assert_eq!(reader.background_color, before);
}

#[test]
fn up_and_down_step_text_size() {
    let mut reader = Reader::new();
    let mut keys = KeySet::none();
    keys.up = true;
    reader.apply_input(&keys, false, no_rainbow());
    assert_eq!(reader.text_size, 34);

    let mut keys = KeySet::none();
    keys.down = true;
    reader.apply_input(&keys, false, no_rainbow());
    reader.apply_input(&keys, false, no_rainbow());
    assert_eq!(reader.text_size, 30);

    let mut keys = KeySet::none();
    keys.up = true;
    keys.down = true;
    reader.apply_input(&keys, false, no_rainbow());
    assert_eq!(reader.text_size, 30);
}

#[test]
fn held_mouse_button_zeroes_speed_every_frame() {
    let mut reader = Reader::new();
    for _ in 0..12 {
        reader.handle_event(&InputEvent::MouseWheel { delta_sign: -1 });
    }
    assert_eq!(reader.speed, 120);
    reader.apply_input(&KeySet::none(), true, no_rainbow());
    assert_eq!(reader.speed, 0);
    reader.apply_input(&KeySet::none(), true, no_rainbow());
    assert_eq!(reader.speed, 0);
    reader.apply_input(&KeySet::none(), false, no_rainbow());
    assert_eq!(reader.speed, 0);
}
