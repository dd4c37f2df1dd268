use vstd::prelude::*;

verus! {

/// The available lengths of a typing session.
#[derive(Clone, Copy, PartialEq, Eq, Structural, Debug, Hash)]
pub enum TypingDuration {
    FifteenSec,
    ThirtySec,
    Minute,
    ThreeMinutes,
}

impl TypingDuration {
    /// The length of the session in seconds.
    pub open spec fn spec_as_seconds(&self) -> usize {
        match self {
            TypingDuration::FifteenSec => 15,
            TypingDuration::ThirtySec => 30,
            TypingDuration::Minute => 60,
            TypingDuration::ThreeMinutes => 180,
        }
    }

    #[verifier::when_used_as_spec(spec_as_seconds)]
    pub fn as_seconds(&self) -> (r: usize)
        ensures
            r == self.spec_as_seconds(),
    {
        match self {
            TypingDuration::FifteenSec => 15,
            TypingDuration::ThirtySec => 30,
            TypingDuration::Minute => 60,
            TypingDuration::ThreeMinutes => 180,
        }
    }
}

impl Default for TypingDuration {
    fn default() -> (r: Self)
        ensures
            r == TypingDuration::Minute,
    {
        TypingDuration::Minute
    }
}

/// The roles a color can play in the layout.
#[allow(dead_code)]
#[derive(Clone, Copy, PartialEq, Eq, Structural, Debug)]
pub enum TukaiLayoutColorTypeEnum {
    Primary,
    Secondary,
    Text,
    TextReverse,
    Background,
    Error,
}

/// The switchable color layouts.
#[derive(Clone, Copy, PartialEq, Eq, Structural, Debug, Hash)]
pub enum TukaiLayoutName {
    Iced,
    Rust,
    Anime,
    Deadpool,
    Wolverine,
    Goblin,
}

/// An RGB color as a plain triple of channel values.
pub type RgbColor = (u8, u8, u8);

/// The set of colors one layout uses.
#[derive(Clone, Copy)]
pub struct TukaiLayoutColors {
    primary: RgbColor,
    text: RgbColor,
    text_current: RgbColor,
    text_current_bg: RgbColor,
    background: RgbColor,
    error: RgbColor,
}

impl TukaiLayoutColors {
    pub closed spec fn spec_primary(&self) -> RgbColor {
        self.primary
    }

    pub closed spec fn spec_text(&self) -> RgbColor {
        self.text
    }

    pub closed spec fn spec_text_current(&self) -> RgbColor {
        self.text_current
    }

    pub closed spec fn spec_text_current_bg(&self) -> RgbColor {
        self.text_current_bg
    }

    pub closed spec fn spec_background(&self) -> RgbColor {
        self.background
    }

    pub closed spec fn spec_error(&self) -> RgbColor {
        self.error
    }

    pub fn new(
        primary: RgbColor,
        text: RgbColor,
        text_current: RgbColor,
        text_current_bg: RgbColor,
        background: RgbColor,
        error: RgbColor,
    ) -> (r: Self)
        ensures
            r.spec_primary() == primary,
            r.spec_text() == text,
            r.spec_text_current() == text_current,
            r.spec_text_current_bg() == text_current_bg,
            r.spec_background() == background,
            r.spec_error() == error,
    {
        Self { primary, text, text_current, text_current_bg, background, error }
    }

    pub fn get_primary(&self) -> (r: RgbColor)
        ensures
            r == self.spec_primary(),
    {
        self.primary
    }

    pub fn get_text(&self) -> (r: RgbColor)
        ensures
            r == self.spec_text(),
    {
        self.text
    }

    pub fn get_text_current(&self) -> (r: RgbColor)
        ensures
            r == self.spec_text_current(),
    {
        self.text_current
    }

    pub fn get_text_current_bg(&self) -> (r: RgbColor)
        ensures
            r == self.spec_text_current_bg(),
    {
        self.text_current_bg
    }

    pub fn get_background(&self) -> (r: RgbColor)
        ensures
            r == self.spec_background(),
    {
        self.background
    }

    pub fn get_error(&self) -> (r: RgbColor)
        ensures
            r == self.spec_error(),
    {
        self.error
    }
}

/// The current color layout, together with the fixed switching order.
pub struct TukaiLayout {
    // Current selected layout name
    active_layout_name: TukaiLayoutName,
}

impl TukaiLayout {
    /// The name of the currently active layout.
    pub closed spec fn spec_active_layout_name(&self) -> TukaiLayoutName {
        self.active_layout_name
    }

    /// The layout that follows `name` in the switching order.
    pub open spec fn spec_next_layout(name: TukaiLayoutName) -> TukaiLayoutName {
        match name {
            TukaiLayoutName::Iced => TukaiLayoutName::Anime,
            TukaiLayoutName::Anime => TukaiLayoutName::Deadpool,
            TukaiLayoutName::Deadpool => TukaiLayoutName::Wolverine,
            TukaiLayoutName::Wolverine => TukaiLayoutName::Rust,
            TukaiLayoutName::Rust => TukaiLayoutName::Goblin,
            TukaiLayoutName::Goblin => TukaiLayoutName::Iced,
        }
    }

    pub fn default() -> (r: Self)
        ensures
            r.spec_active_layout_name() == TukaiLayoutName::Iced,
    {
        Self { active_layout_name: TukaiLayoutName::Iced }
    }

    /// Returns the current active layout name
    pub fn get_active_layout_name(&self) -> (r: &TukaiLayoutName)
        ensures
            *r == self.spec_active_layout_name(),
    {
        &self.active_layout_name
    }

    /// Sets a new active layout name
    pub fn active_layout_name(&mut self, active_layout_name: TukaiLayoutName)
        ensures
            final(self).spec_active_layout_name() == active_layout_name,
    {
        self.active_layout_name = active_layout_name;
    }

    /// Switches to the next layout in the fixed order, then returns that layout.
    pub fn switch_to_next_layout(&mut self) -> (r: TukaiLayoutName)
        ensures
            final(self).spec_active_layout_name() == Self::spec_next_layout(
                old(self).spec_active_layout_name(),
            ),
            r == final(self).spec_active_layout_name(),
    {
        let next = match self.active_layout_name {
            TukaiLayoutName::Iced => TukaiLayoutName::Anime,
            TukaiLayoutName::Anime => TukaiLayoutName::Deadpool,
            TukaiLayoutName::Deadpool => TukaiLayoutName::Wolverine,
            TukaiLayoutName::Wolverine => TukaiLayoutName::Rust,
            TukaiLayoutName::Rust => TukaiLayoutName::Goblin,
            TukaiLayoutName::Goblin => TukaiLayoutName::Iced,
        };
        self.active_layout_name = next;
        next
    }

    /// The colors belonging to the active layout.
    pub fn get_layout_colors(&self) -> (r: TukaiLayoutColors)
        ensures
            r == Self::spec_layout_colors(self.spec_active_layout_name()),
    {
        match self.active_layout_name {
            TukaiLayoutName::Iced => TukaiLayoutColors::new(
                (108, 181, 230),
                (232, 232, 232),
                (25, 74, 107),
                (200, 200, 200),
                (37, 40, 46),
                (214, 90, 90),
            ),
            TukaiLayoutName::Anime => TukaiLayoutColors::new(
                (152, 117, 201),
                (222, 135, 174),
                (49, 45, 51),
                (222, 170, 146),
                (31, 27, 30),
                (227, 138, 138),
            ),
            TukaiLayoutName::Deadpool => TukaiLayoutColors::new(
                (139, 35, 35),
                (210, 210, 210),
                (23, 23, 23),
                (210, 210, 210),
                (33, 29, 29),
                (110, 110, 110),
            ),
            TukaiLayoutName::Wolverine => TukaiLayoutColors::new(
                (196, 166, 51),
                (200, 200, 200),
                (23, 23, 23),
                (210, 210, 210),
                (10, 14, 18),
                (110, 110, 110),
            ),
            TukaiLayoutName::Rust => TukaiLayoutColors::new(
                (150, 63, 17),
                (255, 178, 137),
                (255, 178, 137),
                (150, 63, 17),
                (24, 8, 2),
                (120, 120, 120),
            ),
            TukaiLayoutName::Goblin => TukaiLayoutColors::new(
                (82, 140, 25),
                (136, 207, 66),
                (220, 220, 220),
                (39, 61, 17),
                (32, 36, 30),
                (117, 71, 56),
            ),
        }
    }

    /// The color table, as a spec-level function of the layout name.
    pub closed spec fn spec_layout_colors(name: TukaiLayoutName) -> TukaiLayoutColors {
        match name {
            TukaiLayoutName::Iced => TukaiLayoutColors {
                primary: (108, 181, 230),
                text: (232, 232, 232),
                text_current: (25, 74, 107),
                text_current_bg: (200, 200, 200),
                background: (37, 40, 46),
                error: (214, 90, 90),
            },
            TukaiLayoutName::Anime => TukaiLayoutColors {
                primary: (152, 117, 201),
                text: (222, 135, 174),
                text_current: (49, 45, 51),
                text_current_bg: (222, 170, 146),
                background: (31, 27, 30),
                error: (227, 138, 138),
            },
            TukaiLayoutName::Deadpool => TukaiLayoutColors {
                primary: (139, 35, 35),
                text: (210, 210, 210),
                text_current: (23, 23, 23),
                text_current_bg: (210, 210, 210),
                background: (33, 29, 29),
                error: (110, 110, 110),
            },
            TukaiLayoutName::Wolverine => TukaiLayoutColors {
                primary: (196, 166, 51),
                text: (200, 200, 200),
                text_current: (23, 23, 23),
                text_current_bg: (210, 210, 210),
                background: (10, 14, 18),
                error: (110, 110, 110),
            },
            TukaiLayoutName::Rust => TukaiLayoutColors {
                primary: (150, 63, 17),
                text: (255, 178, 137),
                text_current: (255, 178, 137),
                text_current_bg: (150, 63, 17),
                background: (24, 8, 2),
                error: (120, 120, 120),
            },
            TukaiLayoutName::Goblin => TukaiLayoutColors {
                primary: (82, 140, 25),
                text: (136, 207, 66),
                text_current: (220, 220, 220),
                text_current_bg: (39, 61, 17),
                background: (32, 36, 30),
                error: (117, 71, 56),
            },
        }
    }
}

/// The word lists the trainer can draw target text from.
///
/// Which files exist and what words they hold comes from outside; this type
/// keeps the chosen language and the words of the current list.
pub struct Language {
    // Language files the dictionary offers
    language_files: Vec<String>,
    // Current used language index
    current_index: usize,
    // Current selected language words
    words: Vec<String>,
}

impl Language {
    pub closed spec fn spec_language_files(&self) -> Seq<String> {
        self.language_files@
    }

    pub closed spec fn spec_current_index(&self) -> usize {
        self.current_index
    }

    pub closed spec fn spec_words(&self) -> Seq<String> {
        self.words@
    }

    /// Creates default empty list of the language files
    pub fn default() -> (r: Self)
        ensures
            r.spec_language_files().len() == 0,
            r.spec_current_index() == 0,
            r.spec_words().len() == 0,
    {
        Self { language_files: Vec::new(), current_index: 0, words: Vec::new() }
    }

    /// Takes over the discovered language files and the words of the current
    /// list. With no files there are no words to take.
    pub fn init(self, language_files: Vec<String>, words: Vec<String>) -> (r: Self)
        ensures
            r.spec_language_files() == language_files@,
            r.spec_current_index() == self.spec_current_index(),
            language_files@.len() > 0 ==> r.spec_words() == words@,
            language_files@.len() == 0 ==> r.spec_words() == self.spec_words(),
    {
        if language_files.len() > 0 {
            Self { language_files, current_index: self.current_index, words }
        } else {
            Self { language_files, current_index: self.current_index, words: self.words }
        }
    }

    /// Sets the current language index.
    pub fn current_index(&mut self, index: usize)
        ensures
            final(self).spec_current_index() == index,
            final(self).spec_language_files() == old(self).spec_language_files(),
            final(self).spec_words() == old(self).spec_words(),
    {
        self.current_index = index;
    }

    pub fn get_current_index(&self) -> (r: &usize)
        ensures
            *r == self.spec_current_index(),
    {
        &self.current_index
    }

    /// The words of the currently selected list.
    pub fn get_words(&self) -> (r: &Vec<String>)
        ensures
            r@ == self.spec_words(),
    {
        &self.words
    }

    /// Switches to the next language, wrapping around at the end of the
    /// list, and returns the new index.
    pub fn switch_language(&mut self) -> (r: usize)
        ensures
            final(self).spec_language_files() == old(self).spec_language_files(),
            final(self).spec_words() == old(self).spec_words(),
            final(self).spec_current_index() == (if old(self).spec_current_index() as int + 1
                >= old(self).spec_language_files().len() {
                0int
            } else {
                old(self).spec_current_index() as int + 1
            }),
            r == final(self).spec_current_index(),
    {
        let len = self.language_files.len();
        let new_index: usize = if len == 0 || self.current_index >= len - 1 {
            0
        } else {
            self.current_index + 1
        };
        self.current_index = new_index;
        new_index
    }
}

/// A builder that yields a configuration of type `T`.
#[allow(unused)]
pub trait ConfigBuilder<T>: Sized {
    fn new() -> Self;

    fn build(self) -> T;
}

/// Everything the application is configured with: the storage file, the
/// color layout, the language, the background flag and the typing duration.
pub struct TukaiConfig {
    // Path to the storage file
    file_path: String,
    // Chosen layout
    layout: TukaiLayout,
    // Current language
    language: Language,
    // App background is transparent
    has_transparent_bg: bool,
    // Typing duration
    typing_duration: TypingDuration,
}

impl TukaiConfig {
    pub closed spec fn spec_file_path(&self) -> Seq<char> {
        self.file_path@
    }

    pub closed spec fn spec_layout(&self) -> TukaiLayout {
        self.layout
    }

    pub closed spec fn spec_language(&self) -> Language {
        self.language
    }

    pub closed spec fn spec_has_transparent_bg(&self) -> bool {
        self.has_transparent_bg
    }

    pub closed spec fn spec_typing_duration(&self) -> TypingDuration {
        self.typing_duration
    }

    /// The duration that follows `d` when the user switches: a cycle of
    /// one minute, three minutes and thirty seconds; the fifteen-second
    /// duration rejoins the cycle at one minute.
    pub open spec fn spec_next_duration(d: TypingDuration) -> TypingDuration {
        match d {
            TypingDuration::Minute => TypingDuration::ThreeMinutes,
            TypingDuration::ThreeMinutes => TypingDuration::ThirtySec,
            TypingDuration::ThirtySec => TypingDuration::Minute,
            TypingDuration::FifteenSec => TypingDuration::Minute,
        }
    }

    pub fn default() -> (r: Self)
        ensures
            r.spec_file_path() == "tukai.bin"@,
            r.spec_layout().spec_active_layout_name() == TukaiLayoutName::Iced,
            r.spec_language().spec_language_files().len() == 0,
            r.spec_language().spec_words().len() == 0,
            r.spec_language().spec_current_index() == 0,
            !r.spec_has_transparent_bg(),
            r.spec_typing_duration() == TypingDuration::Minute,
    {
        Self {
            file_path: "tukai.bin".to_owned(),
            layout: TukaiLayout::default(),
            language: Language::default(),
            has_transparent_bg: false,
            typing_duration: TypingDuration::Minute,
        }
    }

    /// Returns `TukaiLayout`
    pub fn get_layout(&self) -> (r: &TukaiLayout)
        ensures
            *r == self.spec_layout(),
    {
        &self.layout
    }

    /// Returns `Language`
    pub fn get_language(&self) -> (r: &Language)
        ensures
            *r == self.spec_language(),
    {
        &self.language
    }

    /// Returns mutable TukaiLayout
    pub fn get_layout_mut(&mut self) -> (r: &mut TukaiLayout)
        ensures
            *r == old(self).spec_layout(),
            final(self).spec_layout() == *final(r),
            final(self).spec_file_path() == old(self).spec_file_path(),
            final(self).spec_language() == old(self).spec_language(),
            final(self).spec_has_transparent_bg() == old(self).spec_has_transparent_bg(),
            final(self).spec_typing_duration() == old(self).spec_typing_duration(),
    {
        &mut self.layout
    }

    /// Returns mutable Language
    pub fn get_language_mut(&mut self) -> (r: &mut Language)
        ensures
            *r == old(self).spec_language(),
            final(self).spec_language() == *final(r),
            final(self).spec_file_path() == old(self).spec_file_path(),
            final(self).spec_layout() == old(self).spec_layout(),
            final(self).spec_has_transparent_bg() == old(self).spec_has_transparent_bg(),
            final(self).spec_typing_duration() == old(self).spec_typing_duration(),
    {
        &mut self.language
    }

    /// Returns the storage file path
    pub fn get_file_path(&self) -> (r: &String)
        ensures
            r@ == self.spec_file_path(),
    {
        &self.file_path
    }

    /// Returns the typing duration currently configured
    pub fn get_typing_duration(&self) -> (r: TypingDuration)
        ensures
            r == self.spec_typing_duration(),
    {
        self.typing_duration
    }

    /// Returns whether the background is transparent
    pub fn has_transparent_bg(&self) -> (r: bool)
        ensures
            r == self.spec_has_transparent_bg(),
    {
        self.has_transparent_bg
    }

    /// Sets the typing duration.
    pub fn set_typing_duration(&mut self, typing_duration: TypingDuration)
        ensures
            final(self).spec_typing_duration() == typing_duration,
            final(self).spec_file_path() == old(self).spec_file_path(),
            final(self).spec_layout() == old(self).spec_layout(),
            final(self).spec_language() == old(self).spec_language(),
            final(self).spec_has_transparent_bg() == old(self).spec_has_transparent_bg(),
    {
        self.typing_duration = typing_duration;
    }

    /// Sets whether the background is transparent.
    pub fn set_transparent_bg(&mut self, state: bool)
        ensures
            final(self).spec_has_transparent_bg() == state,
            final(self).spec_file_path() == old(self).spec_file_path(),
            final(self).spec_layout() == old(self).spec_layout(),
            final(self).spec_language() == old(self).spec_language(),
            final(self).spec_typing_duration() == old(self).spec_typing_duration(),
    {
        self.has_transparent_bg = state;
    }

    /// Toggles a background (transparent | layout color)
    ///
    /// Returns a current state
    pub fn toggle_transparent_bg(&mut self) -> (r: bool)
        ensures
            final(self).spec_has_transparent_bg() == !old(self).spec_has_transparent_bg(),
            r == final(self).spec_has_transparent_bg(),
            final(self).spec_file_path() == old(self).spec_file_path(),
            final(self).spec_layout() == old(self).spec_layout(),
            final(self).spec_language() == old(self).spec_language(),
            final(self).spec_typing_duration() == old(self).spec_typing_duration(),
    {
        self.has_transparent_bg = !self.has_transparent_bg;
        self.has_transparent_bg
    }

    /// Switches the typing duration to the next one in the cycle.
    pub fn switch_typing_duration(&mut self) -> (r: TypingDuration)
        ensures
            final(self).spec_typing_duration() == Self::spec_next_duration(
                old(self).spec_typing_duration(),
            ),
            r == final(self).spec_typing_duration(),
            final(self).spec_file_path() == old(self).spec_file_path(),
            final(self).spec_layout() == old(self).spec_layout(),
            final(self).spec_language() == old(self).spec_language(),
            final(self).spec_has_transparent_bg() == old(self).spec_has_transparent_bg(),
    {
        let next = match self.typing_duration {
            TypingDuration::Minute => TypingDuration::ThreeMinutes,
            TypingDuration::ThreeMinutes => TypingDuration::ThirtySec,
            TypingDuration::ThirtySec => TypingDuration::Minute,
            TypingDuration::FifteenSec => TypingDuration::Minute,
        };
        self.typing_duration = next;
        next
    }
}

/// Builds a `TukaiConfig`, falling back to the defaults for anything not
/// given.
pub struct TukaiConfigBuilder {
    // Path to the storage file
    file_path: Option<String>,
    // Selected layout
    layout: Option<TukaiLayout>,
    // Selected language
    language: Option<Language>,
    // App background is transparent
    has_transparent_bg: bool,
    // Typing duration
    typing_duration: Option<TypingDuration>,
}

impl TukaiConfigBuilder {
    pub closed spec fn spec_file_path(&self) -> Option<String> {
        self.file_path
    }

    pub closed spec fn spec_layout(&self) -> Option<TukaiLayout> {
        self.layout
    }

    pub closed spec fn spec_language(&self) -> Option<Language> {
        self.language
    }

    pub closed spec fn spec_has_transparent_bg(&self) -> bool {
        self.has_transparent_bg
    }

    pub closed spec fn spec_typing_duration(&self) -> Option<TypingDuration> {
        self.typing_duration
    }

    pub fn new() -> (r: Self)
        ensures
            r.spec_file_path() is None,
            r.spec_layout() is None,
            r.spec_language() is None,
            r.spec_has_transparent_bg(),
            r.spec_typing_duration() is None,
    {
        Self {
            file_path: None,
            layout: None,
            language: None,
            has_transparent_bg: true,
            typing_duration: None,
        }
    }

    /// Sets the storage file path
    pub fn file_path(self, file_path: String) -> (r: Self)
        ensures
            r.spec_file_path() matches Some(p) && p@ == file_path@,
            r.spec_layout() == self.spec_layout(),
            r.spec_language() == self.spec_language(),
            r.spec_has_transparent_bg() == self.spec_has_transparent_bg(),
            r.spec_typing_duration() == self.spec_typing_duration(),
    {
        Self { file_path: Some(file_path), ..self }
    }

    /// Sets the layout
    pub fn layout(self, layout: TukaiLayout) -> (r: Self)
        ensures
            r.spec_layout() == Some(layout),
            r.spec_file_path() == self.spec_file_path(),
            r.spec_language() == self.spec_language(),
            r.spec_has_transparent_bg() == self.spec_has_transparent_bg(),
            r.spec_typing_duration() == self.spec_typing_duration(),
    {
        Self { layout: Some(layout), ..self }
    }

    /// Builds and returns `TukaiConfig`
    pub fn build(self) -> (r: TukaiConfig)
        ensures
            (match self.spec_file_path() {
                Some(p) => r.spec_file_path() == p@,
                None => r.spec_file_path() == "tukai.bin"@,
            }),
            (match self.spec_layout() {
                Some(l) => r.spec_layout() == l,
                None => r.spec_layout().spec_active_layout_name() == TukaiLayoutName::Iced,
            }),
            (match self.spec_language() {
                Some(lg) => r.spec_language() == lg,
                None => r.spec_language().spec_language_files().len() == 0
                    && r.spec_language().spec_words().len() == 0,
            }),
            r.spec_has_transparent_bg() == self.spec_has_transparent_bg(),
            (match self.spec_typing_duration() {
                Some(d) => r.spec_typing_duration() == d,
                None => r.spec_typing_duration() == TypingDuration::Minute,
            }),
    {
        let config_default = TukaiConfig::default();
        let has_transparent_bg = self.has_transparent_bg;
        let file_path = match self.file_path {
            Some(p) => p,
            None => config_default.file_path,
        };
        let layout = match self.layout {
            Some(l) => l,
            None => config_default.layout,
        };
        let language = match self.language {
            Some(lg) => lg,
            None => config_default.language,
        };
        let typing_duration = match self.typing_duration {
            Some(d) => d,
            None => config_default.typing_duration,
        };
        TukaiConfig { file_path, layout, language, has_transparent_bg, typing_duration }
    }
}

} // verus!
