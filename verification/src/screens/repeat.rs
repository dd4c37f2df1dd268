use crate::config::TukaiConfig;
use crate::helper::{is_repeated_text, Generator};
use crate::screens::typing::{MistakeHandler, TypingScreen};
use vstd::prelude::*;

verus! {

/// The repeat screen: the same typing surface as the typing screen, but on
/// a single word repeated over and over, with no clock and no recorded
/// statistics.
pub struct RepeatScreen {
    screen: TypingScreen,
}

impl RepeatScreen {
    /// The underlying typing state.
    pub closed spec fn spec_screen(&self) -> TypingScreen {
        self.screen
    }

    pub open spec fn wf(&self) -> bool {
        self.spec_screen().wf()
    }

    /// Starts on a randomly chosen word of the current language, repeated.
    pub fn new(config: &TukaiConfig) -> (r: Self)
        ensures
            r.wf(),
            r.spec_screen().is_idle(),
            is_repeated_text(
                config.spec_language().spec_words(),
                r.spec_screen().spec_generated_text(),
            ),
    {
        let generated_text = Generator::generate_repeated_word(config);
        Self { screen: TypingScreen::with_target(config.get_typing_duration(), generated_text) }
    }

    /// A typed character: the first keystroke starts the underlying session
    /// running, and each keystroke is matched against the repeated text and
    /// appended. Returns whether the event was consumed.
    pub fn handle_char(&mut self, c: char) -> (r: bool)
        requires
            old(self).wf(),
        ensures
            final(self).wf(),
            final(self).spec_screen().spec_generated_text() == old(self).spec_screen().spec_generated_text(),
            final(self).spec_screen().spec_time_secs() == old(self).spec_screen().spec_time_secs(),
            final(self).spec_screen().spec_is_popup_visible() == old(self).spec_screen().spec_is_popup_visible(),
            r == (old(self).spec_screen().spec_is_running() || (old(self).spec_screen().spec_cursor_index() == 0 && old(self).spec_screen().spec_stat() is None)),
            !r ==> *final(self) == *old(self),
            r ==> final(self).spec_screen().spec_is_running() && final(self).spec_screen().spec_stat() is None,
            r && old(self).spec_screen().spec_input().len() < old(self).spec_screen().spec_generated_text().len() ==> final(self).spec_screen().spec_input()
                == old(self).spec_screen().spec_input().push(c),
            r && old(self).spec_screen().spec_input().len() == old(self).spec_screen().spec_generated_text().len() ==> final(self).spec_screen().spec_input()
                == old(self).spec_screen().spec_input(),
    {
        self.screen.handle_char(c)
    }

    /// A backspace: while the underlying session runs it takes back the
    /// last character and its mistake mark. Returns whether the event was
    /// consumed.
    pub fn handle_backspace(&mut self) -> (r: bool)
        requires
            old(self).wf(),
        ensures
            final(self).wf(),
            final(self).spec_screen().same_session_frame(&old(self).spec_screen()),
            r == old(self).spec_screen().spec_is_running(),
            !r ==> *final(self) == *old(self),
            r && old(self).spec_screen().spec_input().len() > 0 ==> final(self).spec_screen().spec_input() == old(self).spec_screen().spec_input().drop_last(),
            r && old(self).spec_screen().spec_input().len() == 0 ==> final(self).spec_screen().spec_input() == old(self).spec_screen().spec_input(),
    {
        self.screen.handle_backspace()
    }

    /// Deletes the last word from the input, exactly as the typing screen
    /// does.
    pub fn delete_last_word(&mut self)
        requires
            old(self).wf(),
        ensures
            final(self).wf(),
            old(self).spec_screen().spec_input().len() > 0 ==> final(self).spec_screen().spec_input()
                == old(self).spec_screen().spec_input().subrange(
                0,
                crate::screens::typing::spec_word_start(old(self).spec_screen().spec_input()),
            ),
            old(self).spec_screen().spec_input().len() == 0 ==> final(self).spec_screen().spec_input() == old(self).spec_screen().spec_input(),
    {
        self.screen.delete_last_word()
    }

    /// Resets to a freshly chosen repeated word.
    pub fn reset(&mut self, config: &TukaiConfig)
        ensures
            final(self).wf(),
            final(self).spec_screen().is_idle(),
            is_repeated_text(
                config.spec_language().spec_words(),
                final(self).spec_screen().spec_generated_text(),
            ),
    {
        let generated_text = Generator::generate_repeated_word(config);
        self.screen.reset_with(generated_text);
    }

    /// The repeated target text.
    pub fn get_generated_text(&self) -> (r: &Vec<char>)
        ensures
            r@ == self.spec_screen().spec_generated_text(),
    {
        self.screen.get_generated_text()
    }

    /// What was typed so far.
    pub fn get_input(&self) -> (r: &Vec<char>)
        ensures
            r@ == self.spec_screen().spec_input(),
    {
        self.screen.get_input()
    }

    /// The mistake tracker of this screen.
    pub fn get_mistake_handler(&self) -> (r: &MistakeHandler)
        ensures
            r@ == self.spec_screen().spec_mistakes(),
    {
        self.screen.get_mistake_handler()
    }

    /// The cursor's position within the repeated text.
    pub fn get_cursor_index(&self) -> (r: usize)
        ensures
            r == self.spec_screen().spec_cursor_index(),
    {
        self.screen.get_cursor_index()
    }
}

} // verus!
