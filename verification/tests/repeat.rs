use tukai::config::TukaiConfig;
use tukai::screens::repeat::RepeatScreen;

#[test]
fn repeat_screen_types_against_the_repeated_word() {
    let config = TukaiConfig::default();
    let mut screen = RepeatScreen::new(&config);
    // with no word list the repeated text falls back to the greeting
    assert_eq!(screen.get_generated_text()[0..5], "Hello".chars().collect::<Vec<char>>());
    assert!(screen.handle_char('H'));
    assert!(screen.handle_char('x'));
    assert_eq!(screen.get_input().len(), 2);
    assert_eq!(screen.get_cursor_index(), 2);
    assert_eq!(screen.get_mistake_handler().get_mistakes_counter(), 1);
    assert!(screen.get_mistake_handler().is_char_mistaken(1));
}

#[test]
fn repeat_screen_backspace_takes_back_the_mistake() {
    let config = TukaiConfig::default();
    let mut screen = RepeatScreen::new(&config);
    screen.handle_char('H');
    screen.handle_char('x');
    screen.handle_backspace();
    assert_eq!(screen.get_input().len(), 1);
    assert_eq!(screen.get_mistake_handler().get_mistakes_counter(), 0);
}

#[test]
fn repeat_screen_deletes_the_last_word() {
    let config = TukaiConfig::default();
    let mut screen = RepeatScreen::new(&config);
    for c in "Hello wor".chars() {
        screen.handle_char(c);
    }
    screen.delete_last_word();
    let expected: Vec<char> = "Hello ".chars().collect();
    assert_eq!(screen.get_input(), &expected);
}

#[test]
fn repeat_screen_reset_clears_the_input() {
    let config = TukaiConfig::default();
    let mut screen = RepeatScreen::new(&config);
    screen.handle_char('H');
    screen.handle_char('e');
    screen.reset(&config);
    assert_eq!(screen.get_input().len(), 0);
    assert_eq!(screen.get_cursor_index(), 0);
    assert_eq!(screen.get_mistake_handler().get_mistakes_counter(), 0);
}
