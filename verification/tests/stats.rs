use tukai::config::TypingDuration;
use tukai::storage::stat_helper::StatHelper;
use tukai::storage::stats::Stat;

#[test]
fn wpm_for_hundred_chars_in_a_minute() {
    // 100 chars / 5 = 20 words, times 60 / 60 seconds = 20 WPM
    assert_eq!(StatHelper::get_calculated_wpm(100, 0, 60), 20);
}

#[test]
fn raw_wpm_for_hundred_chars_in_a_minute() {
    assert_eq!(StatHelper::get_calculated_raw_wpm(100, 60), 20);
}

#[test]
fn accuracy_for_five_mistakes_in_hundred_chars() {
    let hundredths = StatHelper::get_calculated_accuracy(100, 5);
    assert_eq!(hundredths, 9500);
    assert_eq!(hundredths as f64 / 100.0, 95.0);
}

#[test]
fn accuracy_with_no_chars_typed_is_zero() {
    // Even though a session that never ran cannot reach the computation,
    // the formula itself must yield zero rather than an undefined value.
    assert_eq!(StatHelper::get_calculated_accuracy(0, 0), 0);
    assert_eq!(StatHelper::get_calculated_accuracy(0, 3), 0);
}

#[test]
fn accuracy_rounds_to_two_decimal_places() {
    // 2 of 3 correct: 66.666..% rounds up to 66.67%
    assert_eq!(StatHelper::get_calculated_accuracy(3, 1), 6667);
    // 1 of 3 correct: 33.333..% rounds down to 33.33%
    assert_eq!(StatHelper::get_calculated_accuracy(3, 2), 3333);
}

#[test]
fn wpm_saturates_when_mistakes_exceed_chars() {
    assert_eq!(StatHelper::get_calculated_wpm(10, 50, 60), 0);
    assert_eq!(StatHelper::get_calculated_accuracy(10, 50), 0);
}

#[test]
fn average_wpm_uses_integer_division() {
    // 57 correct chars / 5 = 11 words (floor), times 60 / 30 = 22
    assert_eq!(StatHelper::get_calculated_wpm(60, 3, 30), 22);
    assert_eq!(StatHelper::get_calculated_raw_wpm(60, 30), 24);
}

#[test]
fn stat_new_computes_all_figures() {
    let stat = Stat::new(TypingDuration::ThirtySec, 60, 3);
    assert_eq!(stat.get_raw_wpm(), 24);
    assert_eq!(stat.get_average_wpm(), 22);
    assert_eq!(stat.get_accuracy(), 9500);
    assert_eq!(stat.get_typing_duration(), TypingDuration::ThirtySec);
}

#[test]
fn durations_in_seconds() {
    assert_eq!(TypingDuration::FifteenSec.as_seconds(), 15);
    assert_eq!(TypingDuration::ThirtySec.as_seconds(), 30);
    assert_eq!(TypingDuration::Minute.as_seconds(), 60);
    assert_eq!(TypingDuration::ThreeMinutes.as_seconds(), 180);
    assert_eq!(TypingDuration::default(), TypingDuration::Minute);
}
