use vstd::arithmetic::div_mod::{
    lemma_div_is_ordered_by_denominator, lemma_div_multiples_vanish, lemma_fundamental_div_mod,
};
use vstd::prelude::*;

verus! {

/// Raw words per minute: one word is five characters, whatever was typed.
///
/// All divisions round down, as the original integer arithmetic does.
pub open spec fn spec_raw_wpm(chars_counter: int, time_limit: int) -> int
    recommends
        time_limit > 0,
{
    (chars_counter / 5) * 60 / time_limit
}

/// Average words per minute: only correctly typed characters count,
/// where the number of mistakes saturates at the number of characters.
pub open spec fn spec_wpm(chars_counter: int, mistakes_counter: int, time_limit: int) -> int
    recommends
        time_limit > 0,
{
    let correct = if mistakes_counter <= chars_counter {
        chars_counter - mistakes_counter
    } else {
        0
    };
    (correct / 5) * 60 / time_limit
}

/// Accuracy as hundredths of a percent (two decimal places), rounded half up.
/// With no characters typed the accuracy is defined as zero.
pub open spec fn spec_accuracy_hundredths(chars_counter: int, mistakes_counter: int) -> int {
    if chars_counter == 0 {
        0
    } else {
        let correct = if mistakes_counter <= chars_counter {
            chars_counter - mistakes_counter
        } else {
            0
        };
        (correct * 10000 + chars_counter / 2) / chars_counter
    }
}

/// For the durations the sessions use (at least 15 seconds), the words per
/// minute never exceed the number of characters typed, so the figure always
/// fits the machine word that holds that number.
pub proof fn lemma_wpm_bounded(chars_counter: int, time_limit: int)
    requires
        0 <= chars_counter,
        15 <= time_limit,
    ensures
        0 <= (chars_counter / 5) * 60 / time_limit <= chars_counter,
{
    let q = chars_counter / 5;
    lemma_fundamental_div_mod(chars_counter, 5);
    assert(0 <= q);
    lemma_div_is_ordered_by_denominator(q * 60, 15, time_limit);
    lemma_div_multiples_vanish(q * 4, 15);
    assert(q * 60 == 15 * (q * 4)) by (nonlinear_arith);
    assert(q * 60 / 15 == q * 4);
    assert(q * 4 <= 5 * q) by (nonlinear_arith)
        requires
            0 <= q,
    ;
    assert(q * 60 / time_limit >= 0) by {
        vstd::arithmetic::div_mod::lemma_div_pos_is_pos(q * 60, time_limit);
    }
}

/// The pure arithmetic behind the session statistics.
pub struct StatHelper {}

impl StatHelper {
    /// Calculates raw WPM
    pub fn get_calculated_raw_wpm(chars_counter: usize, time_limit: usize) -> (r: usize)
        requires
            time_limit > 0,
            spec_raw_wpm(chars_counter as int, time_limit as int) <= usize::MAX,
        ensures
            r == spec_raw_wpm(chars_counter as int, time_limit as int),
    {
        let w: u128 = (chars_counter as u128) / 5 * 60 / (time_limit as u128);
        proof {
            assert(w <= usize::MAX);
        }
        w as usize
    }

    /// Calculates WPM
    pub fn get_calculated_wpm(
        chars_counter: usize,
        mistakes_counter: usize,
        time_limit: usize,
    ) -> (r: usize)
        requires
            time_limit > 0,
            spec_wpm(chars_counter as int, mistakes_counter as int, time_limit as int)
                <= usize::MAX,
        ensures
            r == spec_wpm(chars_counter as int, mistakes_counter as int, time_limit as int),
    {
        let correct = chars_counter.saturating_sub(mistakes_counter);
        let w: u128 = (correct as u128) / 5 * 60 / (time_limit as u128);
        proof {
            assert(w <= usize::MAX);
        }
        w as usize
    }

    /// Calculates accuracy, in hundredths of a percent.
    pub fn get_calculated_accuracy(chars_counter: usize, mistakes_counter: usize) -> (r: u64)
        ensures
            r == spec_accuracy_hundredths(chars_counter as int, mistakes_counter as int),
            r <= 10000,
    {
        if chars_counter == 0 {
            return 0;
        }
        let correct = chars_counter.saturating_sub(mistakes_counter);
        let num: u128 = (correct as u128) * 10000 + (chars_counter as u128) / 2;
        let den: u128 = chars_counter as u128;
        let h = num / den;
        proof {
            assert(num < 10001 * den) by (nonlinear_arith)
                requires
                    num == (correct as u128) * 10000 + (chars_counter as u128) / 2,
                    den == chars_counter as u128,
                    correct <= chars_counter,
                    chars_counter > 0,
            ;
            assert(h <= 10000) by (nonlinear_arith)
                requires
                    h == num / den,
                    num < 10001 * den,
                    den > 0,
            ;
        }
        h as u64
    }
}

} // verus!
