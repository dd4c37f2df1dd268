use tukai::config::TypingDuration;
use tukai::screens::typing::TypingScreen;
use tukai::storage::storage_handler::StorageHandler;

fn text(s: &str) -> Vec<char> {
    s.chars().collect()
}

fn type_str(screen: &mut TypingScreen, s: &str) {
    for c in s.chars() {
        screen.handle_char(c);
    }
}

fn storage() -> StorageHandler {
    StorageHandler::new(String::from("test.tukai"))
}

#[test]
fn mistake_count_matches_mismatched_positions() {
    let mut screen = TypingScreen::with_target(TypingDuration::Minute, text("abcde"));
    type_str(&mut screen, "abxdz");
    // the typed string disagrees with the target exactly at positions 2 and 4
    let mistakes = screen.get_mistake_handler();
    assert_eq!(mistakes.get_mistakes_counter(), 2);
    assert!(mistakes.is_char_mistaken(2));
    assert!(mistakes.is_char_mistaken(4));
    assert!(!mistakes.is_char_mistaken(0));
    assert!(!mistakes.is_char_mistaken(1));
    assert!(!mistakes.is_char_mistaken(3));
}

#[test]
fn backspace_undoes_a_typed_character() {
    let mut screen = TypingScreen::with_target(TypingDuration::Minute, text("abc"));
    type_str(&mut screen, "ab");
    let count_before = screen.get_mistake_handler().get_mistakes_counter();
    let input_before: Vec<char> = screen.get_input().clone();

    // typing a wrong character and immediately backspacing restores
    // both the input and the mistake set
    screen.handle_char('x');
    assert_eq!(screen.get_mistake_handler().get_mistakes_counter(), count_before + 1);
    screen.handle_backspace();
    assert_eq!(screen.get_mistake_handler().get_mistakes_counter(), count_before);
    assert_eq!(screen.get_input(), &input_before);
    assert_eq!(screen.get_cursor_index(), 2);
}

#[test]
fn keystrokes_beyond_the_target_are_ignored() {
    let mut screen = TypingScreen::with_target(TypingDuration::Minute, text("ab"));
    type_str(&mut screen, "abcd");
    assert_eq!(screen.get_input().len(), 2);
    assert_eq!(screen.get_cursor_index(), 2);
}

#[test]
fn first_keystroke_starts_the_session() {
    let mut screen = TypingScreen::with_target(TypingDuration::Minute, text("abc"));
    assert!(!screen.is_running());
    screen.handle_char('a');
    assert!(screen.is_running());
}

#[test]
fn backspace_while_idle_is_ignored() {
    let mut screen = TypingScreen::with_target(TypingDuration::Minute, text("abc"));
    assert!(!screen.handle_backspace());
    assert_eq!(screen.get_input().len(), 0);
    assert_eq!(screen.get_cursor_index(), 0);
}

#[test]
fn delete_last_word_truncates_to_word_start() {
    let mut screen = TypingScreen::with_target(TypingDuration::Minute, text("hello world abcd"));
    type_str(&mut screen, "hello world ");
    screen.delete_last_word();
    let expected: Vec<char> = "hello ".chars().collect();
    assert_eq!(screen.get_input(), &expected);
    assert_eq!(screen.get_cursor_index(), 6);
}

#[test]
fn delete_last_word_removes_marks_of_the_word() {
    let mut screen = TypingScreen::with_target(TypingDuration::Minute, text("hello world abcd"));
    type_str(&mut screen, "hello wxrld ");
    assert_eq!(screen.get_mistake_handler().get_mistakes_counter(), 1);
    assert!(screen.get_mistake_handler().is_char_mistaken(7));
    screen.delete_last_word();
    // every mark at or beyond the word start (6) is gone
    assert_eq!(screen.get_mistake_handler().get_mistakes_counter(), 0);
    let expected: Vec<char> = "hello ".chars().collect();
    assert_eq!(screen.get_input(), &expected);
}

#[test]
fn delete_last_word_on_whitespace_only_clears_input() {
    let mut screen = TypingScreen::with_target(TypingDuration::Minute, text("ab cd"));
    screen.handle_char(' ');
    screen.handle_char(' ');
    screen.delete_last_word();
    assert_eq!(screen.get_input().len(), 0);
    assert_eq!(screen.get_cursor_index(), 0);
}

#[test]
fn delete_last_word_on_empty_input_is_a_no_op() {
    let mut screen = TypingScreen::with_target(TypingDuration::Minute, text("ab cd"));
    screen.delete_last_word();
    assert_eq!(screen.get_input().len(), 0);
}

#[test]
fn tick_advances_only_while_running() {
    let mut storage_handler = storage();
    let mut screen = TypingScreen::with_target(TypingDuration::ThirtySec, text("abc"));
    screen.handle_tick(&mut storage_handler);
    assert_eq!(screen.get_time_secs(), 0);
    screen.handle_char('a');
    screen.handle_tick(&mut storage_handler);
    assert_eq!(screen.get_time_secs(), 1);
    assert_eq!(screen.get_remaining_time(), 29);
}

#[test]
fn deadline_stops_the_session_and_records_the_stat() {
    // duration of 30 seconds; 60 characters typed, 3 of them wrong
    let mut storage_handler = storage();
    let target: Vec<char> = std::iter::repeat('a').take(100).collect();
    let mut screen = TypingScreen::with_target(TypingDuration::ThirtySec, target);
    type_str(&mut screen, &"a".repeat(57));
    type_str(&mut screen, "bbb");
    for _ in 0..30 {
        screen.handle_tick(&mut storage_handler);
    }
    assert!(!screen.is_running());
    assert!(screen.is_popup_visible());
    // raw WPM = (60/5)*60/30 = 24; average = (57/5)*60/30 = 22;
    // accuracy = round((57/60)*100, 2) = 95.00
    assert_eq!(screen.get_calculated_raw_wpm(), 24);
    assert_eq!(screen.get_calculated_wpm(), 22);
    assert_eq!(screen.get_calculated_accuracy(), 9500);
    let data = storage_handler.get_data();
    assert_eq!(data.0.len(), 1);
    assert_eq!(data.0[0].get_raw_wpm(), 24);
    assert_eq!(data.0[0].get_average_wpm(), 22);
    assert_eq!(data.0[0].get_accuracy(), 9500);
}

#[test]
fn stop_is_idempotent() {
    let mut storage_handler = storage();
    let mut screen = TypingScreen::with_target(TypingDuration::ThirtySec, text("abc"));
    type_str(&mut screen, "abc");
    screen.stop(&mut storage_handler);
    assert_eq!(storage_handler.get_data().0.len(), 1);
    screen.stop(&mut storage_handler);
    // the second stop records nothing new
    assert_eq!(storage_handler.get_data().0.len(), 1);
}

#[test]
fn stop_after_the_popup_was_acknowledged_does_nothing() {
    let mut storage_handler = storage();
    let mut screen = TypingScreen::with_target(TypingDuration::ThirtySec, text("abc"));
    type_str(&mut screen, "ab");
    screen.stop(&mut storage_handler);
    assert!(screen.handle_esc());
    // once a stat exists, stop is a complete no-op: it must not
    // re-open the acknowledged popup
    screen.stop(&mut storage_handler);
    assert!(!screen.is_popup_visible());
    assert_eq!(storage_handler.get_data().0.len(), 1);
}

#[test]
fn esc_acknowledges_the_popup() {
    let mut storage_handler = storage();
    let mut screen = TypingScreen::with_target(TypingDuration::ThirtySec, text("abc"));
    type_str(&mut screen, "ab");
    screen.stop(&mut storage_handler);
    assert!(screen.is_popup_visible());
    assert!(screen.handle_esc());
    assert!(!screen.is_popup_visible());
    assert!(!screen.handle_esc());
}

#[test]
fn keystrokes_after_stop_are_ignored_until_reset() {
    let mut storage_handler = storage();
    let mut screen = TypingScreen::with_target(TypingDuration::ThirtySec, text("abc"));
    type_str(&mut screen, "ab");
    screen.stop(&mut storage_handler);
    assert!(!screen.handle_char('c'));
    assert_eq!(screen.get_input().len(), 2);
}

#[test]
fn reset_returns_every_field_to_its_initial_value() {
    let mut storage_handler = storage();
    let mut screen = TypingScreen::with_target(TypingDuration::ThirtySec, text("abcd"));
    type_str(&mut screen, "axc");
    screen.handle_tick(&mut storage_handler);
    screen.stop(&mut storage_handler);
    screen.reset_with("wxyz".chars().collect());
    assert!(!screen.is_running());
    assert!(!screen.is_popup_visible());
    assert_eq!(screen.get_input().len(), 0);
    assert_eq!(screen.get_cursor_index(), 0);
    assert_eq!(screen.get_time_secs(), 0);
    assert_eq!(screen.get_mistake_handler().get_mistakes_counter(), 0);
    assert_eq!(screen.get_calculated_wpm(), 0);
    assert_eq!(screen.get_calculated_raw_wpm(), 0);
    assert_eq!(screen.get_calculated_accuracy(), 0);
    let expected: Vec<char> = "wxyz".chars().collect();
    assert_eq!(screen.get_generated_text(), &expected);
}
