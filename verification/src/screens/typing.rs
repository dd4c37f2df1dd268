use crate::config::{TukaiConfig, TypingDuration};
use crate::helper::{is_generated_text, Generator};
use crate::storage::stats::Stat;
use crate::storage::storage_handler::StorageHandler;
use vstd::hash_set::HashSetWithView;
use vstd::prelude::*;

verus! {

broadcast use vstd::std_specs::hash::group_hash_axioms;

/// The positions of the target text at which the input disagrees with it.
pub open spec fn mismatch_set(input: Seq<char>, target: Seq<char>) -> Set<usize> {
    Set::new(|i: usize| i < input.len() && input[i as int] != target[i as int])
}

/// Whether a character counts as whitespace when the input is trimmed.
pub open spec fn is_space_char(c: char) -> bool {
    c == ' ' || c == '\t' || c == '\n' || c == '\r'
}

/// The length of the input once trailing whitespace is trimmed away.
pub open spec fn spec_trimmed_len(s: Seq<char>) -> int
    decreases s.len(),
{
    if s.len() == 0 {
        0
    } else if !is_space_char(s.last()) {
        s.len() as int
    } else {
        spec_trimmed_len(s.drop_last())
    }
}

/// The index of the last space in the sequence, or -1 if it has none.
pub open spec fn spec_rfind_space(s: Seq<char>) -> int
    decreases s.len(),
{
    if s.len() == 0 {
        -1
    } else if s.last() == ' ' {
        s.len() - 1
    } else {
        spec_rfind_space(s.drop_last())
    }
}

/// Where the input's last space-delimited word starts: one past the last
/// space before the trimmed end, or zero when the word reaches the start or
/// the input is all whitespace.
pub open spec fn spec_word_start(s: Seq<char>) -> int {
    let t = spec_trimmed_len(s);
    if t == 0 {
        0
    } else {
        spec_rfind_space(s.subrange(0, t)) + 1
    }
}

pub(crate) fn is_space(c: char) -> (r: bool)
    ensures
        r == is_space_char(c),
{
    c == ' ' || c == '\t' || c == '\n' || c == '\r'
}

/// Handler for incorrect symbols
///
/// Inserts incorrect characters' positions into a hash set.
pub struct MistakeHandler {
    mistakes_indexes: HashSetWithView<usize>,
}

impl View for MistakeHandler {
    type V = Set<usize>;

    closed spec fn view(&self) -> Set<usize> {
        self.mistakes_indexes@
    }
}

impl MistakeHandler {
    /// Creates MistakeHandler with an empty set
    pub fn new() -> (r: Self)
        ensures
            r@ == Set::<usize>::empty(),
    {
        Self { mistakes_indexes: HashSetWithView::new() }
    }

    /// Verifies if the character is mistaken
    pub fn is_char_mistaken(&self, char_index: usize) -> (r: bool)
        ensures
            r == self@.contains(char_index),
    {
        self.mistakes_indexes.contains(&char_index)
    }

    /// Adds the typed character's position into the mistakes
    pub fn add_to_mistakes_indexes(&mut self, char_index: usize) -> (r: bool)
        ensures
            final(self)@ == old(self)@.insert(char_index),
            r == !old(self)@.contains(char_index),
    {
        self.mistakes_indexes.insert(char_index)
    }

    /// Removes the typed character's position from the mistakes
    pub fn remove_from_mistakes_indexes(&mut self, char_index: usize) -> (r: bool)
        ensures
            final(self)@ == old(self)@.remove(char_index),
            r == old(self)@.contains(char_index),
    {
        self.mistakes_indexes.remove(&char_index)
    }

    /// Returns the current mistake count
    pub fn get_mistakes_counter(&self) -> (r: usize)
        ensures
            r == self@.len(),
    {
        self.mistakes_indexes.len()
    }
}

/// The typing session: target text, input typed so far, mistakes, the
/// running and popup flags and the elapsed time.
///
/// A well-formed session (see [`TypingScreen::wf`]) keeps the cursor at the
/// end of the input, the input no longer than the target, and the mistake
/// set exactly at the positions where input and target disagree.
pub struct TypingScreen {
    // Random generated text from a words list
    generated_text: Vec<char>,
    // User typed input
    input: Vec<char>,
    // Handle incorrect characters
    mistake_handler: MistakeHandler,
    // User statistics after the current run is completed
    stat: Option<Stat>,
    // Typing running
    is_running: bool,
    // Popup is visible
    is_popup_visible: bool,
    // Seconds elapsed while the session ran
    time_secs: u32,
    // The current cursor index within generated_text
    cursor_index: usize,
    // How long the session may run
    typing_duration: TypingDuration,
}

impl TypingScreen {
    pub closed spec fn spec_generated_text(&self) -> Seq<char> {
        self.generated_text@
    }

    pub closed spec fn spec_input(&self) -> Seq<char> {
        self.input@
    }

    pub closed spec fn spec_mistakes(&self) -> Set<usize> {
        self.mistake_handler@
    }

    pub closed spec fn spec_stat(&self) -> Option<Stat> {
        self.stat
    }

    pub closed spec fn spec_is_running(&self) -> bool {
        self.is_running
    }

    pub closed spec fn spec_is_popup_visible(&self) -> bool {
        self.is_popup_visible
    }

    pub closed spec fn spec_time_secs(&self) -> u32 {
        self.time_secs
    }

    pub closed spec fn spec_cursor_index(&self) -> usize {
        self.cursor_index
    }

    pub closed spec fn spec_typing_duration(&self) -> TypingDuration {
        self.typing_duration
    }

    /// The session in its idle state: nothing typed yet, clock at zero.
    pub open spec fn is_idle(&self) -> bool {
        &&& !self.spec_is_running()
        &&& !self.spec_is_popup_visible()
        &&& self.spec_stat() is None
        &&& self.spec_input().len() == 0
        &&& self.spec_time_secs() == 0
    }

    /// The text part of well-formedness: the cursor sits at the end of the
    /// input, the input never outgrows the target, and the mistake set holds
    /// exactly the disagreeing positions.
    pub open spec fn text_wf(&self) -> bool {
        &&& self.spec_cursor_index() == self.spec_input().len()
        &&& self.spec_input().len() <= self.spec_generated_text().len()
        &&& self.spec_mistakes() == mismatch_set(self.spec_input(), self.spec_generated_text())
    }

    /// Well-formedness: what every reachable session state satisfies.
    pub open spec fn wf(&self) -> bool {
        &&& self.text_wf()
        &&& self.spec_is_running() ==> (self.spec_stat() is None && (self.spec_time_secs() as int)
            < self.spec_typing_duration().spec_as_seconds() as int)
        &&& (!self.spec_is_running() && self.spec_stat() is None) ==> self.spec_time_secs() == 0
    }

    /// Everything but the input, the cursor and the mistakes is the same in
    /// both states.
    pub open spec fn same_session_frame(&self, other: &Self) -> bool {
        &&& self.spec_stat() == other.spec_stat()
        &&& self.spec_is_running() == other.spec_is_running()
        &&& self.spec_is_popup_visible() == other.spec_is_popup_visible()
        &&& self.spec_time_secs() == other.spec_time_secs()
        &&& self.spec_typing_duration() == other.spec_typing_duration()
        &&& self.spec_generated_text() == other.spec_generated_text()
    }

    /// Starts an idle session on the given target text.
    pub fn with_target(typing_duration: TypingDuration, generated_text: Vec<char>) -> (r: Self)
        ensures
            r.wf(),
            r.is_idle(),
            r.spec_generated_text() == generated_text@,
            r.spec_typing_duration() == typing_duration,
    {
        let r = Self {
            generated_text,
            input: Vec::new(),
            mistake_handler: MistakeHandler::new(),
            stat: None,
            is_running: false,
            is_popup_visible: false,
            time_secs: 0,
            cursor_index: 0,
            typing_duration,
        };
        proof {
            assert(r.mistake_handler@ =~= mismatch_set(r.input@, r.generated_text@));
        }
        r
    }

    /// Starts an idle session on a randomly generated target text, with the
    /// typing duration the configuration holds.
    pub fn new(config: &TukaiConfig) -> (r: Self)
        ensures
            r.wf(),
            r.is_idle(),
            r.spec_typing_duration() == config.spec_typing_duration(),
            is_generated_text(
                config.spec_language().spec_words(),
                config.spec_typing_duration().spec_as_seconds() as int,
                r.spec_generated_text(),
            ),
    {
        let generated_text = Generator::generate_random_string(config);
        Self::with_target(config.get_typing_duration(), generated_text)
    }

    /// Resets the session: a fresh random target text, the configured
    /// duration, and everything else back to its initial value, atomically.
    pub fn reset(&mut self, config: &TukaiConfig)
        ensures
            final(self).wf(),
            final(self).is_idle(),
            final(self).spec_typing_duration() == config.spec_typing_duration(),
            is_generated_text(
                config.spec_language().spec_words(),
                config.spec_typing_duration().spec_as_seconds() as int,
                final(self).spec_generated_text(),
            ),
    {
        let generated_text = Generator::generate_random_string(config);
        self.typing_duration = config.get_typing_duration();
        self.reset_with(generated_text);
    }

    /// Starts the running typing process
    ///
    /// Unsets last stat
    fn run(&mut self)
        ensures
            *final(self) == (Self { is_running: true, stat: None, ..*old(self) }),
    {
        self.is_running = true;
        self.stat = None;
    }

    /// Validates an inserted char
    ///
    /// If it does not match the target at the cursor, its position joins the
    /// set of mistakes.
    fn validate_input_char(&mut self, inserted_char: char)
        requires
            old(self).cursor_index < old(self).generated_text@.len(),
        ensures
            *final(self) == (Self { mistake_handler: final(self).mistake_handler, ..*old(self) }),
            final(self).mistake_handler@ == (if old(self).generated_text@[old(self).cursor_index as int] != inserted_char {
                old(self).mistake_handler@.insert(old(self).cursor_index)
            } else {
                old(self).mistake_handler@
            }),
    {
        let generated_char = self.generated_text[self.cursor_index];
        if generated_char != inserted_char {
            self.mistake_handler.add_to_mistakes_indexes(self.cursor_index);
        }
    }

    /// Moves the cursor position forward
    ///
    /// Also validates the char. A keystroke beyond the end of the target
    /// text is ignored.
    fn move_cursor_forward_with(&mut self, c: char)
        requires
            old(self).wf(),
        ensures
            final(self).wf(),
            final(self).same_session_frame(old(self)),
            old(self).spec_input().len() < old(self).spec_generated_text().len() ==> final(self).spec_input() == old(self).spec_input().push(c),
            old(self).spec_input().len() == old(self).spec_generated_text().len() ==> final(self).spec_input() == old(self).spec_input(),
    {
        if self.cursor_index < self.generated_text.len() {
            self.validate_input_char(c);
            self.input.push(c);
            self.cursor_index = self.cursor_index + 1;
            proof {
                assert(self.mistake_handler@ =~= mismatch_set(self.input@, self.generated_text@));
            }
        }
    }

    /// Moves the cursor position backward
    ///
    /// Removes the position from the set of mistakes if it is there.
    fn move_cursor_backward(&mut self)
        requires
            old(self).wf(),
        ensures
            final(self).wf(),
            final(self).same_session_frame(old(self)),
            old(self).spec_input().len() > 0 ==> final(self).spec_input() == old(self).spec_input().drop_last(),
            old(self).spec_input().len() == 0 ==> final(self).spec_input() == old(self).spec_input(),
    {
        if self.input.pop().is_some() {
            self.cursor_index = self.cursor_index - 1;
            if self.mistake_handler.is_char_mistaken(self.cursor_index) {
                self.mistake_handler.remove_from_mistakes_indexes(self.cursor_index);
            }
            proof {
                assert(self.mistake_handler@ =~= mismatch_set(self.input@, self.generated_text@));
            }
        }
    }

    /// A typed character: the first keystroke of an idle session starts it
    /// running, and while the session runs each keystroke is matched against
    /// the target and appended. Returns whether the event was consumed.
    pub fn handle_char(&mut self, c: char) -> (r: bool)
        requires
            old(self).wf(),
        ensures
            final(self).wf(),
            final(self).spec_generated_text() == old(self).spec_generated_text(),
            final(self).spec_time_secs() == old(self).spec_time_secs(),
            final(self).spec_typing_duration() == old(self).spec_typing_duration(),
            final(self).spec_is_popup_visible() == old(self).spec_is_popup_visible(),
            r == (old(self).spec_is_running() || (old(self).spec_cursor_index() == 0 && old(self).spec_stat() is None)),
            !r ==> *final(self) == *old(self),
            r ==> final(self).spec_is_running() && final(self).spec_stat() is None,
            r && old(self).spec_input().len() < old(self).spec_generated_text().len() ==> final(self).spec_input() == old(self).spec_input().push(c),
            r && old(self).spec_input().len() == old(self).spec_generated_text().len() ==> final(self).spec_input() == old(self).spec_input(),
    {
        if self.is_running {
            self.move_cursor_forward_with(c);
            true
        } else if self.cursor_index == 0 && self.stat.is_none() {
            self.run();
            self.move_cursor_forward_with(c);
            true
        } else {
            false
        }
    }

    /// A backspace: while the session runs it takes back the last character
    /// and clears its mistake mark. Returns whether the event was consumed.
    pub fn handle_backspace(&mut self) -> (r: bool)
        requires
            old(self).wf(),
        ensures
            final(self).wf(),
            final(self).same_session_frame(old(self)),
            r == old(self).spec_is_running(),
            !r ==> *final(self) == *old(self),
            r && old(self).spec_input().len() > 0 ==> final(self).spec_input() == old(self).spec_input().drop_last(),
            r && old(self).spec_input().len() == 0 ==> final(self).spec_input() == old(self).spec_input(),
    {
        if self.is_running {
            self.move_cursor_backward();
            true
        } else {
            false
        }
    }

    /// An escape: acknowledges the results popup. Returns whether the event
    /// was consumed.
    pub fn handle_esc(&mut self) -> (r: bool)
        requires
            old(self).wf(),
        ensures
            final(self).wf(),
            r == old(self).spec_is_popup_visible(),
            !final(self).spec_is_popup_visible(),
            final(self).spec_generated_text() == old(self).spec_generated_text(),
            final(self).spec_input() == old(self).spec_input(),
            final(self).spec_mistakes() == old(self).spec_mistakes(),
            final(self).spec_stat() == old(self).spec_stat(),
            final(self).spec_is_running() == old(self).spec_is_running(),
            final(self).spec_time_secs() == old(self).spec_time_secs(),
            final(self).spec_typing_duration() == old(self).spec_typing_duration(),
            final(self).spec_cursor_index() == old(self).spec_cursor_index(),
    {
        if self.is_popup_visible {
            self.is_popup_visible = false;
            true
        } else {
            false
        }
    }

    /// Returns whether typing has begun
    pub fn is_running(&self) -> (r: bool)
        ensures
            r == self.spec_is_running(),
    {
        self.is_running
    }

    /// Returns whether the results popup is visible
    pub fn is_popup_visible(&self) -> (r: bool)
        ensures
            r == self.spec_is_popup_visible(),
    {
        self.is_popup_visible
    }

    /// The cursor's position within the target text
    pub fn get_cursor_index(&self) -> (r: usize)
        ensures
            r == self.spec_cursor_index(),
    {
        self.cursor_index
    }

    /// The target text the session is typed against
    pub fn get_generated_text(&self) -> (r: &Vec<char>)
        ensures
            r@ == self.spec_generated_text(),
    {
        &self.generated_text
    }

    /// What was typed so far
    pub fn get_input(&self) -> (r: &Vec<char>)
        ensures
            r@ == self.spec_input(),
    {
        &self.input
    }

    /// The mistake tracker of this session
    pub fn get_mistake_handler(&self) -> (r: &MistakeHandler)
        ensures
            r@ == self.spec_mistakes(),
    {
        &self.mistake_handler
    }

    /// The seconds the session has been running
    pub fn get_time_secs(&self) -> (r: u32)
        ensures
            r == self.spec_time_secs(),
    {
        self.time_secs
    }

    /// The seconds left until the deadline stops the session.
    pub fn get_remaining_time(&self) -> (r: usize)
        ensures
            r == (if self.spec_typing_duration().spec_as_seconds() as int
                >= self.spec_time_secs() as int {
                self.spec_typing_duration().spec_as_seconds() as int - self.spec_time_secs() as int
            } else {
                0int
            }),
    {
        let secs = self.typing_duration.as_seconds();
        if secs >= self.time_secs as usize {
            secs - self.time_secs as usize
        } else {
            0
        }
    }

    /// Stops the running typing process
    ///
    /// If the session already has its stat, the call does nothing at all.
    /// Otherwise it makes the popup visible, computes the stat from the
    /// input and the mistakes and appends it to the persisted record.
    pub fn stop(&mut self, storage_handler: &mut StorageHandler)
        requires
            old(self).text_wf(),
        ensures
            final(self).text_wf(),
            final(self).spec_generated_text() == old(self).spec_generated_text(),
            final(self).spec_input() == old(self).spec_input(),
            final(self).spec_mistakes() == old(self).spec_mistakes(),
            final(self).spec_time_secs() == old(self).spec_time_secs(),
            final(self).spec_typing_duration() == old(self).spec_typing_duration(),
            old(self).spec_stat() is Some ==> *final(self) == *old(self) && *final(storage_handler)
                == *old(storage_handler),
            old(self).spec_stat() is None ==> {
                &&& final(self).wf()
                &&& !final(self).spec_is_running()
                &&& final(self).spec_is_popup_visible()
                &&& final(self).spec_stat() matches Some(st)
                &&& st.is_stat_for(
                    old(self).spec_typing_duration(),
                    old(self).spec_input().len() as int,
                    old(self).spec_mistakes().len() as int,
                )
                &&& final(storage_handler).spec_data().0@ == old(storage_handler).spec_data().0@.push(st)
                &&& final(storage_handler).spec_data().1 == old(storage_handler).spec_data().1
                &&& final(storage_handler).spec_data().2 == old(storage_handler).spec_data().2
                &&& final(storage_handler).spec_data().3 == old(storage_handler).spec_data().3
                &&& final(storage_handler).spec_data().4 == old(storage_handler).spec_data().4
                &&& final(storage_handler).spec_file_path() == old(storage_handler).spec_file_path()
            },
    {
        if self.stat.is_none() {
            self.is_running = false;
            self.is_popup_visible = true;
            let stat = Stat::new(
                self.typing_duration,
                self.input.len(),
                self.mistake_handler.get_mistakes_counter(),
            );
            storage_handler.insert_into_stats(&stat);
            self.stat = Some(stat);
        }
    }

    /// A clock tick: while the session runs the elapsed time advances, and
    /// reaching the configured duration stops the session.
    pub fn handle_tick(&mut self, storage_handler: &mut StorageHandler)
        requires
            old(self).wf(),
        ensures
            final(self).wf(),
            !old(self).spec_is_running() ==> *final(self) == *old(self) && *final(storage_handler)
                == *old(storage_handler),
            old(self).spec_is_running() ==> {
                &&& final(self).spec_time_secs() == old(self).spec_time_secs() + 1
                &&& final(self).spec_generated_text() == old(self).spec_generated_text()
                &&& final(self).spec_input() == old(self).spec_input()
                &&& final(self).spec_mistakes() == old(self).spec_mistakes()
                &&& final(self).spec_typing_duration() == old(self).spec_typing_duration()
            },
            old(self).spec_is_running() && old(self).spec_time_secs() + 1 < old(self).spec_typing_duration().spec_as_seconds() as int ==> final(self).spec_is_running()
                && final(self).spec_stat() is None && *final(storage_handler) == *old(storage_handler),
            old(self).spec_is_running() && old(self).spec_time_secs() + 1 >= old(self).spec_typing_duration().spec_as_seconds() as int ==> {
                &&& !final(self).spec_is_running()
                &&& final(self).spec_is_popup_visible()
                &&& final(self).spec_stat() matches Some(st)
                &&& st.is_stat_for(
                    old(self).spec_typing_duration(),
                    old(self).spec_input().len() as int,
                    old(self).spec_mistakes().len() as int,
                )
                &&& final(storage_handler).spec_data().0@ == old(storage_handler).spec_data().0@.push(st)
            },
    {
        if self.is_running {
            self.time_secs = self.time_secs + 1;
            if self.time_secs as usize >= self.typing_duration.as_seconds() {
                self.stop(storage_handler);
            }
        }
    }

    /// Deletes the last word from the input.
    ///
    /// Trailing whitespace is trimmed for finding the word, the input is cut
    /// back to the word's start, and all mistake marks at or beyond that
    /// start are removed. An empty input stays untouched; an input of only
    /// whitespace is cleared.
    pub fn delete_last_word(&mut self)
        requires
            old(self).wf(),
        ensures
            final(self).wf(),
            final(self).same_session_frame(old(self)),
            old(self).spec_input().len() == 0 ==> final(self).spec_input() == old(
                self,
            ).spec_input(),
            old(self).spec_input().len() > 0 ==> final(self).spec_input() == old(
                self,
            ).spec_input().subrange(0, spec_word_start(old(self).spec_input())),
    {
        if self.input.len() == 0 {
            return ;
        }
        let ghost s = self.input@;
        proof {
            assert(s.subrange(0, s.len() as int) =~= s);
        }
        // Find the end of the actual content (trim trailing whitespace)
        let mut t: usize = self.input.len();
        while t > 0 && is_space(self.input[t - 1])
            invariant
                t <= s.len(),
                *self == *old(self),
                s == self.input@,
                spec_trimmed_len(s) == spec_trimmed_len(s.subrange(0, t as int)),
            decreases t,
        {
            proof {
                assert(s.subrange(0, t as int).drop_last() =~= s.subrange(0, t as int - 1));
            }
            t = t - 1;
        }
        proof {
            if t > 0 {
                assert(s.subrange(0, t as int).last() == s[t as int - 1]);
            }
            assert(spec_trimmed_len(s) == t as int);
        }
        // Find the start of the last word: one past the last space in the
        // trimmed part
        let mut j: usize = t;
        while j > 0 && self.input[j - 1] != ' '
            invariant
                j <= t <= s.len(),
                *self == *old(self),
                s == self.input@,
                spec_rfind_space(s.subrange(0, t as int)) == spec_rfind_space(
                    s.subrange(0, j as int),
                ),
            decreases j,
        {
            proof {
                assert(s.subrange(0, j as int).drop_last() =~= s.subrange(0, j as int - 1));
            }
            j = j - 1;
        }
        proof {
            if j > 0 {
                assert(s.subrange(0, j as int).last() == s[j as int - 1]);
                assert(spec_rfind_space(s.subrange(0, j as int)) == j - 1);
            } else {
                assert(s.subrange(0, 0int) =~= Seq::<char>::empty());
                assert(spec_rfind_space(s.subrange(0, j as int)) == -1);
            }
            assert(spec_word_start(s) == j as int);
        }
        let ghost m0 = self.mistake_handler@;
        proof {
            assert(self.mistake_handler@ =~= Set::new(
                |k: usize| m0.contains(k) && !(j <= k < j),
            ));
        }
        // Clear the mistake marks of everything that is cut away
        let mut i: usize = j;
        while i < self.input.len()
            invariant
                j <= i <= s.len(),
                *self == (Self { mistake_handler: self.mistake_handler, ..*old(self) }),
                s == self.input@,
                self.mistake_handler@ == Set::new(
                    |k: usize| m0.contains(k) && !(j <= k < i),
                ),
            decreases s.len() - i,
        {
            self.mistake_handler.remove_from_mistakes_indexes(i);
            proof {
                assert(self.mistake_handler@ =~= Set::new(
                    |k: usize| m0.contains(k) && !(j <= k < i + 1),
                ));
            }
            i = i + 1;
        }
        self.input.truncate(j);
        self.cursor_index = j;
        proof {
            assert(self.input@ =~= s.subrange(0, j as int));
            assert forall|k: usize|
                self.mistake_handler@.contains(k) <==> mismatch_set(
                    self.input@,
                    self.generated_text@,
                ).contains(k) by {
                assert(self.mistake_handler@.contains(k) <==> (m0.contains(k) && !(j <= k
                    < s.len())));
                assert(m0.contains(k) <==> mismatch_set(s, self.generated_text@).contains(k));
                if k < j {
                    assert(self.input@[k as int] == s[k as int]);
                }
            }
            assert(self.mistake_handler@ =~= mismatch_set(self.input@, self.generated_text@));
        }
    }

    /// Resets the session to idle on a fresh target text.
    ///
    /// The reset is atomic: input, cursor, mistakes, flags, clock and stat
    /// all return to their initial values together.
    pub fn reset_with(&mut self, generated_text: Vec<char>)
        ensures
            final(self).wf(),
            final(self).is_idle(),
            final(self).spec_generated_text() == generated_text@,
            final(self).spec_typing_duration() == old(self).spec_typing_duration(),
    {
        self.is_running = false;
        self.time_secs = 0;
        self.mistake_handler = MistakeHandler::new();
        self.cursor_index = 0;
        self.input = Vec::new();
        self.is_popup_visible = false;
        self.stat = None;
        self.generated_text = generated_text;
        proof {
            assert(self.mistake_handler@ =~= mismatch_set(self.input@, self.generated_text@));
        }
    }

    /// Returns the average WPM of the finished run, or zero while none is
    /// finished.
    pub fn get_calculated_wpm(&self) -> (r: usize)
        ensures
            r == (match self.spec_stat() {
                Some(st) => st.spec_average_wpm(),
                None => 0,
            }),
    {
        if let Some(last_stat) = &self.stat {
            last_stat.get_average_wpm()
        } else {
            0
        }
    }

    /// Returns the raw WPM of the finished run, or zero while none is
    /// finished.
    pub fn get_calculated_raw_wpm(&self) -> (r: usize)
        ensures
            r == (match self.spec_stat() {
                Some(st) => st.spec_raw_wpm(),
                None => 0,
            }),
    {
        if let Some(last_stat) = &self.stat {
            last_stat.get_raw_wpm()
        } else {
            0
        }
    }

    /// Returns the accuracy of the finished run in hundredths of a percent,
    /// or zero while none is finished.
    pub fn get_calculated_accuracy(&self) -> (r: u64)
        ensures
            r == (match self.spec_stat() {
                Some(st) => st.spec_accuracy(),
                None => 0,
            }),
    {
        if let Some(last_stat) = &self.stat {
            last_stat.get_accuracy()
        } else {
            0
        }
    }
}

/// The mistake count of a well-formed session — so of a session after any
/// sequence of typed characters, backspaces, word deletions and resets —
/// equals the number of positions where the input disagrees with the target
/// text.
pub proof fn lemma_mistake_count_matches_input(s: &TypingScreen)
    requires
        s.wf(),
    ensures
        s.spec_mistakes().len() == mismatch_set(s.spec_input(), s.spec_generated_text()).len(),
        forall|i: usize|
            #[trigger] s.spec_mistakes().contains(i) <==> (i < s.spec_input().len()
                && s.spec_input()[i as int] != s.spec_generated_text()[i as int]),
{
}

/// Backspace is the exact inverse of character insertion for mistake
/// marking: typing a character and then backspacing at once returns both
/// the input and the mistake set to their pre-insert state.
pub proof fn lemma_backspace_inverts_insert(
    s0: &TypingScreen,
    s1: &TypingScreen,
    s2: &TypingScreen,
    c: char,
)
    requires
        s0.wf(),
        s1.wf(),
        s2.wf(),
        s1.spec_generated_text() == s0.spec_generated_text(),
        s2.spec_generated_text() == s1.spec_generated_text(),
        s1.spec_input() == s0.spec_input().push(c),
        s2.spec_input() == s1.spec_input().drop_last(),
    ensures
        s2.spec_input() == s0.spec_input(),
        s2.spec_mistakes() == s0.spec_mistakes(),
{
    assert(s2.spec_input() =~= s0.spec_input());
    assert(s2.spec_mistakes() =~= s0.spec_mistakes());
}

/// A well-formed session holds no mistake marks at or beyond the end of its
/// input; in particular, deleting the last word leaves no marks at or past
/// the word's start.
pub proof fn lemma_no_marks_beyond_input(s: &TypingScreen)
    requires
        s.wf(),
    ensures
        forall|i: usize| i >= s.spec_input().len() ==> !(#[trigger] s.spec_mistakes().contains(i)),
{
}

} // verus!
