use crate::config::TypingDuration;
use crate::storage::stat_helper::{
    lemma_wpm_bounded, spec_accuracy_hundredths, spec_raw_wpm, spec_wpm, StatHelper,
};
use vstd::prelude::*;

verus! {

/// The outcome of one completed typing session.
///
/// The accuracy is kept in hundredths of a percent, so `9500` stands for
/// an accuracy of 95.00 percent.
#[derive(Clone, Copy, Debug)]
pub struct Stat {
    typing_duration: TypingDuration,
    average_wpm: usize,
    raw_wpm: usize,
    accuracy: u64,
}

impl Stat {
    pub closed spec fn spec_typing_duration(&self) -> TypingDuration {
        self.typing_duration
    }

    pub closed spec fn spec_average_wpm(&self) -> usize {
        self.average_wpm
    }

    pub closed spec fn spec_raw_wpm(&self) -> usize {
        self.raw_wpm
    }

    pub closed spec fn spec_accuracy(&self) -> u64 {
        self.accuracy
    }

    /// Whether this record holds exactly the statistics that a session of
    /// the given duration, typed characters and mistakes produces.
    pub open spec fn is_stat_for(
        &self,
        typing_duration: TypingDuration,
        chars_counter: int,
        mistakes_counter: int,
    ) -> bool {
        let secs = typing_duration.spec_as_seconds() as int;
        &&& self.spec_typing_duration() == typing_duration
        &&& self.spec_average_wpm() == spec_wpm(chars_counter, mistakes_counter, secs)
        &&& self.spec_raw_wpm() == spec_raw_wpm(chars_counter, secs)
        &&& self.spec_accuracy() == spec_accuracy_hundredths(chars_counter, mistakes_counter)
    }

    /// Creates a new Stat with the WPM, raw WPM and accuracy computed
    /// from the typed characters and mistakes.
    pub fn new(
        typing_duration: TypingDuration,
        chars_counter: usize,
        mistakes_counter: usize,
    ) -> (r: Self)
        ensures
            r.is_stat_for(typing_duration, chars_counter as int, mistakes_counter as int),
    {
        let typing_duration_in_seconds = typing_duration.as_seconds();
        proof {
            lemma_wpm_bounded(chars_counter as int, typing_duration_in_seconds as int);
            let correct = if mistakes_counter <= chars_counter {
                chars_counter - mistakes_counter
            } else {
                0
            };
            lemma_wpm_bounded(correct as int, typing_duration_in_seconds as int);
        }
        Self {
            typing_duration,
            average_wpm: StatHelper::get_calculated_wpm(
                chars_counter,
                mistakes_counter,
                typing_duration_in_seconds,
            ),
            raw_wpm: StatHelper::get_calculated_raw_wpm(chars_counter, typing_duration_in_seconds),
            accuracy: StatHelper::get_calculated_accuracy(chars_counter, mistakes_counter),
        }
    }

    /// Reassembles a record from its stored figures, as when a persisted
    /// record is decoded.
    pub fn from_parts(
        typing_duration: TypingDuration,
        average_wpm: usize,
        raw_wpm: usize,
        accuracy: u64,
    ) -> (r: Self)
        ensures
            r.spec_typing_duration() == typing_duration,
            r.spec_average_wpm() == average_wpm,
            r.spec_raw_wpm() == raw_wpm,
            r.spec_accuracy() == accuracy,
    {
        Self { typing_duration, average_wpm, raw_wpm, accuracy }
    }

    /// Two records with the same duration and the same figures are the same
    /// record.
    pub proof fn lemma_stat_eq(a: Stat, b: Stat)
        requires
            a.spec_typing_duration() == b.spec_typing_duration(),
            a.spec_average_wpm() == b.spec_average_wpm(),
            a.spec_raw_wpm() == b.spec_raw_wpm(),
            a.spec_accuracy() == b.spec_accuracy(),
        ensures
            a == b,
    {
    }

    /// Returns the average wpm
    pub fn get_average_wpm(&self) -> (r: usize)
        ensures
            r == self.spec_average_wpm(),
    {
        self.average_wpm
    }

    /// Returns the raw WPM
    pub fn get_raw_wpm(&self) -> (r: usize)
        ensures
            r == self.spec_raw_wpm(),
    {
        self.raw_wpm
    }

    /// Returns the accuracy, in hundredths of a percent
    pub fn get_accuracy(&self) -> (r: u64)
        ensures
            r == self.spec_accuracy(),
    {
        self.accuracy
    }

    /// Returns the duration the session ran for
    pub fn get_typing_duration(&self) -> (r: TypingDuration)
        ensures
            r == self.spec_typing_duration(),
    {
        self.typing_duration
    }
}

impl Default for Stat {
    fn default() -> (r: Self)
        ensures
            r.spec_typing_duration() == TypingDuration::Minute,
            r.spec_average_wpm() == 0,
            r.spec_raw_wpm() == 0,
            r.spec_accuracy() == 0,
    {
        Self { typing_duration: TypingDuration::Minute, average_wpm: 0, raw_wpm: 0, accuracy: 0 }
    }
}

} // verus!
