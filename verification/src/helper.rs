use crate::config::TukaiConfig;
use crate::screens::typing::{is_space, is_space_char};
use rand::seq::SliceRandom;
use rand::Rng;
use vstd::prelude::*;

verus! {

/// The whitespace-delimited words of a text, in order.
pub open spec fn spec_split_words(s: Seq<char>) -> Seq<Seq<char>>
    decreases s.len(),
{
    if s.len() == 0 {
        Seq::empty()
    } else {
        let c = s.last();
        let pre = s.drop_last();
        let rest = spec_split_words(pre);
        if is_space_char(c) {
            rest
        } else if pre.len() > 0 && !is_space_char(pre.last()) {
            rest.update(rest.len() - 1, rest.last().push(c))
        } else {
            rest.push(seq![c])
        }
    }
}

/// A text that ends in the middle of a word has at least that word.
proof fn lemma_split_words_nonempty(s: Seq<char>)
    requires
        s.len() > 0,
        !is_space_char(s.last()),
    ensures
        spec_split_words(s).len() > 0,
    decreases s.len(),
{
    let pre = s.drop_last();
    if pre.len() > 0 && !is_space_char(pre.last()) {
        lemma_split_words_nonempty(pre);
    }
}

/// Splits a text into its whitespace-delimited words: the compute half of
/// reading a language's word list, whose file the caller fetches.
pub fn words_from_text(text: &str) -> (r: Vec<Vec<char>>)
    ensures
        r@.map(|i: int, w: Vec<char>| w@) == spec_split_words(text@),
{
    let mut r: Vec<Vec<char>> = Vec::new();
    let mut in_word = false;
    let chars_it = text.chars();
    proof {
        assert(text@.subrange(0, 0) =~= Seq::<char>::empty());
        assert(r@.map(|i: int, w: Vec<char>| w@) =~= spec_split_words(text@.subrange(0, 0)));
    }
    for c in it: chars_it
        invariant
            it.seq() == text@,
            r@.map(|i: int, w: Vec<char>| w@) == spec_split_words(
                it.seq().subrange(0, it.index() as int),
            ),
            in_word == (it.index() > 0 && !is_space_char(it.seq()[it.index() as int - 1])),
    {
        let ghost prefix = it.seq().subrange(0, it.index() as int);
        let ghost next_prefix = it.seq().subrange(0, it.index() as int + 1);
        proof {
            assert(next_prefix.drop_last() =~= prefix);
            assert(next_prefix.last() == it.seq()[it.index() as int]);
            if in_word {
                lemma_split_words_nonempty(prefix);
            }
        }
        if is_space(c) {
            in_word = false;
        } else if in_word {
            let mut w = match r.pop() {
                Some(w) => w,
                None => vstd::pervasive::unreached(),
            };
            w.push(c);
            r.push(w);
            proof {
                assert(r@.map(|i: int, w2: Vec<char>| w2@) =~= spec_split_words(next_prefix));
            }
        } else {
            let mut w: Vec<char> = Vec::new();
            w.push(c);
            r.push(w);
            in_word = true;
            proof {
                assert(w@ =~= seq![it.seq()[it.index() as int]]);
                assert(r@.map(|i: int, w2: Vec<char>| w2@) =~= spec_split_words(next_prefix));
            }
        }
    }
    proof {
        assert(text@.subrange(0, text@.len() as int) =~= text@);
    }
    r
}

/// The given words joined in order, each one followed by a single space.
pub open spec fn spec_join_words(ws: Seq<Seq<char>>) -> Seq<char>
    decreases ws.len(),
{
    if ws.len() == 0 {
        Seq::empty()
    } else {
        spec_join_words(ws.drop_last()) + ws.last() + seq![' ']
    }
}

/// The given word repeated `n` times, with single spaces in between.
pub open spec fn spec_repeat_word(w: Seq<char>, n: nat) -> Seq<char>
    decreases n,
{
    if n == 0 {
        Seq::empty()
    } else if n == 1 {
        w
    } else {
        spec_repeat_word(w, (n - 1) as nat) + seq![' '] + w
    }
}

/// How many words the generator draws: the asked-for amount, clamped at
/// what the word list offers.
pub open spec fn spec_sample_len(amount: int, available: int) -> int {
    if amount <= available {
        amount
    } else {
        available
    }
}

/// What a generated target text is: min(2 x duration seconds, word count)
/// words of the given list, each followed by a single space.
pub open spec fn is_generated_text(
    words: Seq<String>,
    duration_secs: int,
    text: Seq<char>,
) -> bool {
    exists|sel: Seq<Seq<char>>|
        {
            &&& text == #[trigger] spec_join_words(sel)
            &&& sel.len() == spec_sample_len(2 * duration_secs, words.len() as int)
            &&& forall|i: int|
                #![trigger sel[i]]
                0 <= i < sel.len() ==> exists|j: int|
                    #![trigger words[j]]
                    0 <= j < words.len() && sel[i] == words[j]@
        }
}

/// What a repeat text is: one word of the given list — or the fixed
/// greeting when the list is empty — repeated fifty times with single
/// spaces in between.
pub open spec fn is_repeated_text(words: Seq<String>, text: Seq<char>) -> bool {
    if words.len() == 0 {
        text == spec_repeat_word("Hello"@, 50)
    } else {
        exists|j: int|
            #![trigger words[j]]
            0 <= j < words.len() && text == spec_repeat_word(words[j]@, 50)
    }
}

/// The mottos a screen's footer draws from.
pub open spec fn spec_motto(i: int) -> Seq<char> {
    if i == 0 {
        " Practice today, master tomorrow "@
    } else if i == 1 {
        " Fingers on keys, progress with ease "@
    } else if i == 2 {
        " Consistency breeds accuracy "@
    } else if i == 3 {
        " Type smarter, not harder "@
    } else {
        " Precision today, perfection tomorrow "@
    }
}

/// Relies on rand's thread_rng and gen_range: a number drawn from the
/// half-open range below the bound, which panics only on an empty range.
#[verifier::external_body]
fn random_index(bound: usize) -> (r: usize)
    requires
        bound > 0,
    ensures
        r < bound,
{
    rand::thread_rng().gen_range(0..bound)
}

/// Relies on rand's choose_multiple on a slice: it yields
/// min(amount, len) of the slice's elements, sampled without replacement.
#[verifier::external_body]
fn sample_words(words: &Vec<String>, amount: usize) -> (r: Vec<String>)
    ensures
        r@.len() == (if amount <= words@.len() {
            amount as int
        } else {
            words@.len() as int
        }),
        forall|i: int|
            #![trigger r@[i]]
            0 <= i < r@.len() ==> exists|j: int|
                #![trigger words@[j]]
                0 <= j < words@.len() && r@[i]@ == words@[j]@,
{
    let mut rng = rand::thread_rng();
    words.choose_multiple(&mut rng, amount).cloned().collect()
}

/// Appends every character of the string to the buffer.
fn push_str_chars(buf: &mut Vec<char>, s: &str)
    ensures
        final(buf)@ == old(buf)@ + s@,
{
    let ghost start = buf@;
    let chars_it = s.chars();
    proof {
        assert(start + s@.subrange(0, 0) =~= start);
    }
    for c in it: chars_it
        invariant
            it.seq() == s@,
            buf@ == start + it.seq().subrange(0, it.index() as int),
    {
        proof {
            assert(start + it.seq().subrange(0, it.index() as int + 1) =~= (start
                + it.seq().subrange(0, it.index() as int)).push(it.seq()[it.index() as int]));
        }
        buf.push(c);
    }
    proof {
        assert(s@.subrange(0, s@.len() as int) =~= s@);
    }
}

/// Joins the words into one text, each word followed by a single space.
fn join_words_with_spaces(words: &Vec<String>) -> (r: Vec<char>)
    ensures
        r@ == spec_join_words(words@.map(|i: int, w: String| w@)),
{
    let ghost views = words@.map(|i: int, w: String| w@);
    let mut r: Vec<char> = Vec::new();
    proof {
        assert(views.subrange(0, 0) =~= Seq::<Seq<char>>::empty());
    }
    for k in 0..words.len()
        invariant
            views == words@.map(|i: int, w: String| w@),
            r@ == spec_join_words(views.subrange(0, k as int)),
    {
        push_str_chars(&mut r, words[k].as_str());
        r.push(' ');
        proof {
            assert(views.subrange(0, k + 1).drop_last() =~= views.subrange(0, k as int));
            assert(views.subrange(0, k + 1).last() == views[k as int]);
            assert(r@ =~= spec_join_words(views.subrange(0, k as int)) + views[k as int]
                + seq![' ']);
        }
    }
    proof {
        assert(views.subrange(0, views.len() as int) =~= views);
    }
    r
}

/// The word source for the typing screens.
pub struct Generator;

impl Generator {
    /// Hands out the words of the language currently selected in the
    /// configuration.
    pub fn get_words(config: &TukaiConfig) -> (r: Vec<String>)
        ensures
            r@.len() == config.spec_language().spec_words().len(),
            forall|i: int|
                #![trigger r@[i]]
                0 <= i < r@.len() ==> r@[i]@ == config.spec_language().spec_words()[i]@,
    {
        let words = config.get_language().get_words();
        let mut r: Vec<String> = Vec::new();
        for k in 0..words.len()
            invariant
                words@ == config.spec_language().spec_words(),
                r@.len() == k,
                forall|i: int| #![trigger r@[i]] 0 <= i < k ==> r@[i]@ == words@[i]@,
        {
            r.push(words[k].clone());
        }
        r
    }

    /// Generates a target text: min(2 x duration seconds, word count)
    /// randomly chosen words of the current language, each followed by a
    /// single space. With an empty word list the text is empty.
    pub fn generate_random_string(config: &TukaiConfig) -> (r: Vec<char>)
        ensures
            config.spec_language().spec_words().len() == 0 ==> r@.len() == 0,
            is_generated_text(
                config.spec_language().spec_words(),
                config.spec_typing_duration().spec_as_seconds() as int,
                r@,
            ),
    {
        let words = Generator::get_words(config);
        let amount = config.get_typing_duration().as_seconds() * 2;
        let chosen = sample_words(&words, amount);
        let r = join_words_with_spaces(&chosen);
        proof {
            let spec_words = config.spec_language().spec_words();
            let sel = chosen@.map(|i: int, w: String| w@);
            assert(sel.len() == spec_sample_len(
                2 * config.spec_typing_duration().spec_as_seconds(),
                spec_words.len() as int,
            ));
            assert forall|i: int| #![trigger sel[i]] 0 <= i < sel.len() implies exists|j: int|
                #![trigger spec_words[j]]
                0 <= j < spec_words.len() && sel[i] == spec_words[j]@ by {
                let j0 = choose|j0: int|
                    #![trigger words@[j0]]
                    0 <= j0 < words@.len() && chosen@[i]@ == words@[j0]@;
                assert(sel[i] == chosen@[i]@);
                assert(spec_words[j0]@ == words@[j0]@);
            }
            assert(r@ == spec_join_words(sel));
            if spec_words.len() == 0 {
                assert(sel.len() == 0);
                assert(spec_join_words(sel) =~= Seq::<char>::empty());
            }
        }
        r
    }

    /// Generates the repeat screen's text: one randomly chosen word of the
    /// current language — or a fixed greeting when the list is empty —
    /// repeated fifty times with single spaces in between.
    pub fn generate_repeated_word(config: &TukaiConfig) -> (r: Vec<char>)
        ensures
            is_repeated_text(config.spec_language().spec_words(), r@),
    {
        let words = Generator::get_words(config);
        let word: String = if words.len() > 0 {
            let j = random_index(words.len());
            words[j].clone()
        } else {
            "Hello".to_owned()
        };
        let mut r: Vec<char> = Vec::new();
        let mut i: usize = 0;
        while i < 50
            invariant
                i <= 50,
                r@ == spec_repeat_word(word@, i as nat),
            decreases 50 - i,
        {
            if i > 0 {
                r.push(' ');
            }
            push_str_chars(&mut r, word.as_str());
            proof {
                if i == 0 {
                    assert(r@ =~= spec_repeat_word(word@, 1));
                } else {
                    assert(r@ =~= spec_repeat_word(word@, i as nat) + seq![' '] + word@);
                }
            }
            i = i + 1;
        }
        r
    }

    /// Generates and returns a random motto string.
    ///
    /// This could be used, for example, in a screen footer.
    pub fn generate_random_motto() -> (r: String)
        ensures
            exists|i: int| 0 <= i < 5 && r@ == #[trigger] spec_motto(i),
    {
        let i = random_index(5);
        let m: &str = if i == 0 {
            " Practice today, master tomorrow "
        } else if i == 1 {
            " Fingers on keys, progress with ease "
        } else if i == 2 {
            " Consistency breeds accuracy "
        } else if i == 3 {
            " Type smarter, not harder "
        } else {
            " Precision today, perfection tomorrow "
        };
        let r = m.to_owned();
        proof {
            if i == 0 {
                assert(r@ == spec_motto(0));
            } else if i == 1 {
                assert(r@ == spec_motto(1));
            } else if i == 2 {
                assert(r@ == spec_motto(2));
            } else if i == 3 {
                assert(r@ == spec_motto(3));
            } else {
                assert(r@ == spec_motto(4));
            }
        }
        r
    }
}

} // verus!
