use speed_reading::color::Rgba;
use speed_reading::input::InputEvent;
use speed_reading::reader::DisplayMode;
use speed_reading::reader::Reader;
use speed_reading::reader::TextError;
use speed_reading::reader::INITIAL_TEXT_SIZE;
use speed_reading::reader::MIN_SPEED;

fn text_drop() -> InputEvent {
    InputEvent::FileDrop { mime: b"text/plain".to_vec() }
}

#[test]
fn initial_state() {
    let reader = Reader::new();
    assert_eq!(reader.dragging, 0);
    assert_eq!(reader.words.len(), 0);
    assert_eq!(reader.speed, 0);
    assert_eq!(reader.cursor, 0);
    assert_eq!(reader.background_color, Rgba { red: 0, green: 0, blue: 0, alpha: 255 });
    assert_eq!(reader.text_color, Rgba { red: 255, green: 255, blue: 255, alpha: 255 });
    assert_eq!(reader.text_size, INITIAL_TEXT_SIZE);
    assert_eq!(reader.display_mode(), DisplayMode::IdlePrompt);
}

#[test]
fn drag_enter_counts_every_drag() {
    let mut reader = Reader::new();
    for expected in 1..4usize {
        reader.handle_event(&InputEvent::DragEnter);
        assert_eq!(reader.dragging, expected);
    }
    assert_eq!(reader.display_mode(), DisplayMode::DragOverlay);
}

#[test]
fn drag_leave_resets_counter() {
    let mut reader = Reader::new();
    for _ in 0..5 {
        reader.handle_event(&InputEvent::DragEnter);
    }
    reader.handle_event(&InputEvent::DragLeave);
    assert_eq!(reader.dragging, 0);
}

#[test]
fn drop_resets_counter() {
    let mut reader = Reader::new();
    for _ in 0..3 {
        reader.handle_event(&InputEvent::DragEnter);
    }
    reader.handle_event(&InputEvent::FileDrop { mime: b"image/png".to_vec() });
    assert_eq!(reader.dragging, 0);
}

#[test]
fn wheel_steps_speed_against_delta_sign() {
    let mut reader = Reader::new();
    reader.handle_event(&InputEvent::MouseWheel { delta_sign: -1 });
    assert_eq!(reader.speed, 10);
    reader.handle_event(&InputEvent::MouseWheel { delta_sign: 1 });
    assert_eq!(reader.speed, 0);
    reader.handle_event(&InputEvent::MouseWheel { delta_sign: 0 });
    assert_eq!(reader.speed, 0);
}

#[test]
fn wheel_never_goes_below_floor() {
    let mut reader = Reader::new();
    for _ in 0..40 {
        reader.handle_event(&InputEvent::MouseWheel { delta_sign: 1 });
        assert!(reader.speed >= MIN_SPEED);
    }
    assert_eq!(reader.speed, MIN_SPEED);
}

#[test]
fn only_text_plain_asks_for_a_load() {
    let mut reader = Reader::new();
    assert!(reader.handle_event(&text_drop()));
    assert!(!reader.handle_event(&InputEvent::FileDrop { mime: b"image/png".to_vec() }));
    assert!(!reader.handle_event(&InputEvent::FileDrop { mime: b"text/plai".to_vec() }));
    assert!(!reader.handle_event(&InputEvent::FileDrop { mime: b"text/plainx".to_vec() }));
}

#[test]
fn three_word_drop_end_to_end() {
    let mut reader = Reader::new();
    reader.handle_event(&InputEvent::DragEnter);
    let load = reader.handle_event(&text_drop());
    assert!(load);
    assert_eq!(reader.dragging, 0);
    let loaded = reader.load_text(&b"one two three".to_vec());
    assert_eq!(loaded, Ok(3));
    assert_eq!(reader.words.len(), 3);
    assert_eq!(reader.display_mode(), DisplayMode::WordDisplay);
    assert_eq!(reader.cursor, 0);
    assert_eq!(reader.displayed_index(), 0);
    assert_eq!(reader.displayed_word().as_slice(), b"one");
}

#[test]
fn malformed_utf8_is_rejected_and_state_kept() {
    let mut reader = Reader::new();
    let outcome = reader.load_text(&vec![0xff, 0xfe, 0x20]);
    assert_eq!(outcome, Err(TextError::InvalidUtf8));
    assert_eq!(reader.words.len(), 0);
    assert_eq!(reader.display_mode(), DisplayMode::IdlePrompt);
}

#[test]
fn words_are_loaded_at_most_once() {
    let mut reader = Reader::new();
    assert_eq!(reader.load_text(&b"first text".to_vec()), Ok(2));
    assert_eq!(reader.load_text(&b"second longer text".to_vec()), Err(TextError::AlreadyLoaded));
    assert_eq!(reader.words.len(), 2);
    assert_eq!(reader.displayed_word().as_slice(), b"first");
}

#[test]
fn displayed_index_clamps_cursor() {
    let mut reader = Reader::new();
    assert_eq!(reader.load_text(&b"one two three".to_vec()), Ok(3));
    reader.cursor = -5 * 60000;
    assert_eq!(reader.displayed_index(), 0);
    reader.cursor = -1;
    assert_eq!(reader.displayed_index(), 0);
    reader.cursor = 59999;
    assert_eq!(reader.displayed_index(), 0);
    reader.cursor = 60000;
    assert_eq!(reader.displayed_index(), 1);
    reader.cursor = 2 * 60000 + 30000;
    assert_eq!(reader.displayed_index(), 2);
    reader.cursor = 1000 * 60000;
    assert_eq!(reader.displayed_index(), 2);
    reader.cursor = i64::MAX;
    assert_eq!(reader.displayed_index(), 2);
    reader.cursor = i64::MIN;
    assert_eq!(reader.displayed_index(), 0);
}

#[test]
fn advance_moves_cursor_by_speed() {
    let mut reader = Reader::new();
    assert_eq!(reader.load_text(&b"one two three".to_vec()), Ok(3));
    for _ in 0..12 {
        reader.handle_event(&InputEvent::MouseWheel { delta_sign: -1 });
    }
    assert_eq!(reader.speed, 120);
    reader.advance(500);
    assert_eq!(reader.cursor, 60000);
    assert_eq!(reader.displayed_index(), 1);
    assert_eq!(reader.displayed_word().as_slice(), b"two");
    reader.advance(250);
    assert_eq!(reader.cursor, 90000);
    assert_eq!(reader.displayed_index(), 1);
}

#[test]
fn advance_with_negative_speed_clamps_at_first_word() {
    let mut reader = Reader::new();
    assert_eq!(reader.load_text(&b"one two".to_vec()), Ok(2));
    for _ in 0..3 {
        reader.handle_event(&InputEvent::MouseWheel { delta_sign: 1 });
    }
    assert_eq!(reader.speed, -30);
    reader.advance(1000);
    assert_eq!(reader.cursor, -30000);
    assert_eq!(reader.displayed_index(), 0);
    assert_eq!(reader.displayed_word().as_slice(), b"one");
}

#[test]
fn overlay_wins_over_loaded_words() {
    let mut reader = Reader::new();
    assert_eq!(reader.load_text(&b"one two".to_vec()), Ok(2));
    reader.handle_event(&InputEvent::DragEnter);
    assert_eq!(reader.display_mode(), DisplayMode::DragOverlay);
    reader.handle_event(&InputEvent::DragLeave);
    assert_eq!(reader.display_mode(), DisplayMode::WordDisplay);
}
