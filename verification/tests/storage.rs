use tukai::config::{TukaiLayoutName, TypingDuration};
use tukai::storage::stats::Stat;
use tukai::storage::storage_handler::{StorageHandler, StorageHandlerError};

fn handler() -> StorageHandler {
    StorageHandler::new(String::from("test.tukai"))
}

#[test]
fn load_without_a_file_yields_the_default_record() {
    let storage_handler = handler().init(None);
    let data = storage_handler.get_data();
    assert!(data.0.is_empty());
    assert_eq!(data.1, TypingDuration::Minute);
    assert_eq!(data.2, TukaiLayoutName::Iced);
    assert!(!data.3);
    assert_eq!(data.4, 0);
}

#[test]
fn a_saved_record_loads_back_unchanged() {
    let mut storage_handler = handler().init(None);
    storage_handler.insert_into_stats(&Stat::new(TypingDuration::ThirtySec, 60, 3));
    storage_handler.insert_into_stats(&Stat::new(TypingDuration::Minute, 100, 0));
    storage_handler.set_typing_duration(TypingDuration::ThreeMinutes);
    storage_handler.set_layout(TukaiLayoutName::Goblin);
    storage_handler.set_transparent_bg(true);
    storage_handler.set_language_index(2);

    let bytes = storage_handler.to_bytes();
    let reloaded = handler().init(Some(&bytes));
    let data = reloaded.get_data();
    assert_eq!(data.0.len(), 2);
    assert_eq!(data.0[0].get_average_wpm(), 22);
    assert_eq!(data.0[0].get_raw_wpm(), 24);
    assert_eq!(data.0[0].get_accuracy(), 9500);
    assert_eq!(data.0[0].get_typing_duration(), TypingDuration::ThirtySec);
    assert_eq!(data.0[1].get_average_wpm(), 20);
    assert_eq!(data.1, TypingDuration::ThreeMinutes);
    assert_eq!(data.2, TukaiLayoutName::Goblin);
    assert!(data.3);
    assert_eq!(data.4, 2);
}

#[test]
fn a_second_load_of_the_default_record_is_the_same_default() {
    let first = handler().init(None);
    let bytes = first.to_bytes();
    let second = handler().init(Some(&bytes));
    let data = second.get_data();
    assert!(data.0.is_empty());
    assert_eq!(data.1, TypingDuration::Minute);
    assert_eq!(data.2, TukaiLayoutName::Iced);
    assert!(!data.3);
    assert_eq!(data.4, 0);
}

#[test]
fn corrupt_bytes_fall_back_to_the_default_record() {
    let garbage: Vec<u8> = vec![7, 13, 255, 3, 1];
    let storage_handler = handler().init(Some(&garbage));
    let data = storage_handler.get_data();
    assert!(data.0.is_empty());
    assert_eq!(data.1, TypingDuration::Minute);
}

#[test]
fn insert_into_stats_appends_in_order() {
    let mut storage_handler = handler();
    storage_handler.insert_into_stats(&Stat::new(TypingDuration::Minute, 100, 0));
    storage_handler.insert_into_stats(&Stat::new(TypingDuration::Minute, 200, 0));
    let data = storage_handler.get_data();
    assert_eq!(data.0.len(), 2);
    assert_eq!(data.0[0].get_average_wpm(), 20);
    assert_eq!(data.0[1].get_average_wpm(), 40);
}

#[test]
fn settings_getters_follow_the_setters() {
    let mut storage_handler = handler();
    storage_handler.set_typing_duration(TypingDuration::FifteenSec);
    storage_handler.set_layout(TukaiLayoutName::Rust);
    storage_handler.set_transparent_bg(true);
    storage_handler.set_language_index(3);
    assert_eq!(storage_handler.get_typing_duration(), TypingDuration::FifteenSec);
    assert_eq!(storage_handler.get_layout_name(), TukaiLayoutName::Rust);
    assert!(storage_handler.get_has_transparent_bg());
    assert_eq!(storage_handler.get_language_index(), 3);
}

#[test]
fn stats_reversed_lists_newest_first() {
    let mut storage_handler = handler();
    storage_handler.insert_into_stats(&Stat::new(TypingDuration::Minute, 100, 0));
    storage_handler.insert_into_stats(&Stat::new(TypingDuration::Minute, 200, 0));
    storage_handler.insert_into_stats(&Stat::new(TypingDuration::Minute, 300, 0));
    let reversed = storage_handler.get_data_stats_reversed();
    assert_eq!(reversed.len(), 3);
    assert_eq!(reversed[0].get_average_wpm(), 60);
    assert_eq!(reversed[1].get_average_wpm(), 40);
    assert_eq!(reversed[2].get_average_wpm(), 20);
}

#[test]
fn stats_best_sorts_by_average_wpm_descending() {
    let mut storage_handler = handler();
    storage_handler.insert_into_stats(&Stat::new(TypingDuration::Minute, 200, 0));
    storage_handler.insert_into_stats(&Stat::new(TypingDuration::Minute, 500, 0));
    storage_handler.insert_into_stats(&Stat::new(TypingDuration::Minute, 100, 0));
    let best = storage_handler.get_data_stats_best();
    assert_eq!(best.len(), 3);
    assert_eq!(best[0].get_average_wpm(), 100);
    assert_eq!(best[1].get_average_wpm(), 40);
    assert_eq!(best[2].get_average_wpm(), 20);
}

#[test]
fn overview_averages_the_recorded_runs() {
    let mut storage_handler = handler();
    // 20 WPM at 100.00% and 22 WPM at 95.00%
    storage_handler.insert_into_stats(&Stat::new(TypingDuration::Minute, 100, 0));
    storage_handler.insert_into_stats(&Stat::new(TypingDuration::ThirtySec, 60, 3));
    let overview = storage_handler.get_data_for_overview();
    assert_eq!(overview.total_stats_count, 2);
    assert_eq!(overview.total_average_wpm, 21);
    // (10000 + 9500) / 2 = 9750 hundredths -> 98 whole percent
    assert_eq!(overview.total_average_accuracy, 98);
}

#[test]
fn overview_of_an_empty_record_is_all_zero() {
    let overview = handler().get_data_for_overview();
    assert_eq!(overview.total_stats_count, 0);
    assert_eq!(overview.total_average_wpm, 0);
    assert_eq!(overview.total_average_accuracy, 0);
}

#[test]
fn chart_lists_runs_newest_first_with_their_indices() {
    let mut storage_handler = handler();
    storage_handler.insert_into_stats(&Stat::new(TypingDuration::Minute, 100, 0));
    storage_handler.insert_into_stats(&Stat::new(TypingDuration::Minute, 200, 0));
    let (best, dataset) = storage_handler.get_data_for_chart();
    assert_eq!(best, 100);
    assert_eq!(dataset, vec![(1, 40), (0, 20)]);
}

#[test]
fn chart_best_wpm_rises_above_the_floor() {
    let mut storage_handler = handler();
    storage_handler.insert_into_stats(&Stat::new(TypingDuration::Minute, 1000, 0));
    let (best, _) = storage_handler.get_data_for_chart();
    assert_eq!(best, 200);
}

#[test]
fn storage_error_keeps_its_message() {
    let err = StorageHandlerError::new(String::from("the record would not serialize"));
    assert_eq!(err.get_message(), "the record would not serialize");
}
