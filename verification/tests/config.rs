use tukai::config::{
    Language, TukaiConfig, TukaiConfigBuilder, TukaiLayout, TukaiLayoutColorTypeEnum,
    TukaiLayoutName, TypingDuration,
};
use tukai::cursor::Cursor;
use tukai::helper::{words_from_text, Generator};
use tukai::loader::Loader;
use tukai::screens::{Instruction, InstructionWidget};

#[test]
fn typing_duration_cycles_through_three_lengths() {
    let mut config = TukaiConfig::default();
    assert_eq!(config.get_typing_duration(), TypingDuration::Minute);
    assert_eq!(config.switch_typing_duration(), TypingDuration::ThreeMinutes);
    assert_eq!(config.switch_typing_duration(), TypingDuration::ThirtySec);
    assert_eq!(config.switch_typing_duration(), TypingDuration::Minute);
}

#[test]
fn toggling_the_background_flips_the_flag() {
    let mut config = TukaiConfig::default();
    assert!(!config.has_transparent_bg());
    assert!(config.toggle_transparent_bg());
    assert!(!config.toggle_transparent_bg());
}

#[test]
fn layouts_switch_in_a_fixed_cycle() {
    let mut layout = TukaiLayout::default();
    assert_eq!(*layout.get_active_layout_name(), TukaiLayoutName::Iced);
    assert_eq!(layout.switch_to_next_layout(), TukaiLayoutName::Anime);
    assert_eq!(layout.switch_to_next_layout(), TukaiLayoutName::Deadpool);
    assert_eq!(layout.switch_to_next_layout(), TukaiLayoutName::Wolverine);
    assert_eq!(layout.switch_to_next_layout(), TukaiLayoutName::Rust);
    assert_eq!(layout.switch_to_next_layout(), TukaiLayoutName::Goblin);
    assert_eq!(layout.switch_to_next_layout(), TukaiLayoutName::Iced);
}

#[test]
fn each_layout_has_its_own_colors() {
    let mut layout = TukaiLayout::default();
    assert_eq!(layout.get_layout_colors().get_primary(), (108, 181, 230));
    assert_eq!(layout.get_layout_colors().get_background(), (37, 40, 46));
    layout.active_layout_name(TukaiLayoutName::Rust);
    assert_eq!(layout.get_layout_colors().get_primary(), (150, 63, 17));
    assert_eq!(layout.get_layout_colors().get_error(), (120, 120, 120));
}

#[test]
fn language_switching_wraps_around() {
    let files = vec![String::from("en.txt"), String::from("de.txt")];
    let words = vec![String::from("hello")];
    let mut language = Language::default().init(files, words);
    assert_eq!(*language.get_current_index(), 0);
    assert_eq!(language.switch_language(), 1);
    assert_eq!(language.switch_language(), 0);
}

#[test]
fn language_without_files_stays_at_zero() {
    let mut language = Language::default();
    assert_eq!(language.switch_language(), 0);
    assert_eq!(language.get_words().len(), 0);
}

#[test]
fn builder_falls_back_to_defaults() {
    let config = TukaiConfigBuilder::new().build();
    assert_eq!(config.get_file_path(), "tukai.bin");
    assert!(config.has_transparent_bg());
    assert_eq!(config.get_typing_duration(), TypingDuration::Minute);
    assert_eq!(*config.get_layout().get_active_layout_name(), TukaiLayoutName::Iced);
}

#[test]
fn builder_keeps_what_was_given() {
    let mut layout = TukaiLayout::default();
    layout.active_layout_name(TukaiLayoutName::Goblin);
    let config = TukaiConfigBuilder::new()
        .file_path(String::from("elsewhere.bin"))
        .layout(layout)
        .build();
    assert_eq!(config.get_file_path(), "elsewhere.bin");
    assert_eq!(*config.get_layout().get_active_layout_name(), TukaiLayoutName::Goblin);
}

#[test]
fn generated_text_joins_sampled_words_with_spaces() {
    let mut config = TukaiConfig::default();
    let language = Language::default().init(
        vec![String::from("en.txt")],
        vec![String::from("cat")],
    );
    *config.get_language_mut() = language;
    // with a single word in the list, the sample can only pick that word
    let text = Generator::generate_random_string(&config);
    let expected: Vec<char> = "cat ".chars().collect();
    assert_eq!(text, expected);
}

#[test]
fn generated_text_is_empty_without_words() {
    let config = TukaiConfig::default();
    assert_eq!(Generator::generate_random_string(&config).len(), 0);
}

#[test]
fn repeated_word_falls_back_to_a_greeting() {
    let config = TukaiConfig::default();
    let text: String = Generator::generate_repeated_word(&config).into_iter().collect();
    let mut expected = String::from("Hello");
    for _ in 0..49 {
        expected.push_str(" Hello");
    }
    assert_eq!(text, expected);
}

#[test]
fn words_from_text_splits_on_whitespace() {
    let words = words_from_text("the quick\nbrown\t fox  ");
    let words: Vec<String> = words.into_iter().map(|w| w.into_iter().collect()).collect();
    assert_eq!(
        words,
        vec![
            String::from("the"),
            String::from("quick"),
            String::from("brown"),
            String::from("fox"),
        ]
    );
    assert_eq!(words_from_text("").len(), 0);
    assert_eq!(words_from_text("  \n\t ").len(), 0);
}

#[test]
fn a_motto_always_comes_from_the_fixed_list() {
    let mottos = [
        " Practice today, master tomorrow ",
        " Fingers on keys, progress with ease ",
        " Consistency breeds accuracy ",
        " Type smarter, not harder ",
        " Precision today, perfection tomorrow ",
    ];
    for _ in 0..20 {
        let motto = Generator::generate_random_motto();
        assert!(mottos.contains(&motto.as_str()));
    }
}

#[test]
fn get_words_hands_out_the_current_list() {
    let mut config = TukaiConfig::default();
    let language = Language::default().init(
        vec![String::from("en.txt")],
        vec![String::from("alpha"), String::from("beta")],
    );
    *config.get_language_mut() = language;
    let words = Generator::get_words(&config);
    assert_eq!(words, vec![String::from("alpha"), String::from("beta")]);
}

#[test]
fn cursor_walks_the_spaces_of_the_text() {
    let text: Vec<char> = "ab cd e".chars().collect();
    let mut cursor = Cursor::new(&text);
    assert_eq!(cursor.index(), 0);
    assert!(!cursor.is_space(0));
    assert!(cursor.is_space(2));
    // the tracker has advanced to the next space
    assert!(!cursor.is_space(2));
    assert!(cursor.is_space(5));
    cursor.move_forward();
    cursor.move_forward();
    assert_eq!(cursor.index(), 2);
    cursor.move_backward();
    assert_eq!(cursor.index(), 1);
    cursor.reset();
    assert_eq!(cursor.index(), 0);
}

#[test]
fn loader_cycles_through_its_frames() {
    let mut loader = Loader::new();
    assert_eq!(loader.get_slash(), "\\");
    assert_eq!(loader.get_slash(), "|");
    assert_eq!(loader.get_slash(), "/");
    assert_eq!(loader.get_slash(), "-");
    assert_eq!(loader.get_slash(), "\\");
}

#[test]
fn instruction_widget_collects_hints_in_order() {
    let layout = TukaiLayout::default();
    let mut widget = InstructionWidget::new(&layout);
    widget.add_instruction(Instruction::new("Exit", "esc", TukaiLayoutColorTypeEnum::Secondary));
    widget.add_instruction(Instruction::new("Reset", "ctrl-r", TukaiLayoutColorTypeEnum::Secondary));
    let instructions = widget.get_instructions();
    assert_eq!(instructions.len(), 2);
    assert_eq!(instructions[0].get_title(), "Exit");
    assert_eq!(instructions[0].get_shortcut(), "esc");
    assert_eq!(instructions[1].get_title(), "Reset");
    // every hint is shown in the layout's primary color
    let color = widget.get_instruction_color(&TukaiLayoutColorTypeEnum::Secondary);
    assert_eq!(color, (108, 181, 230));
}
