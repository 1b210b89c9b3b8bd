//! The preferences dialog: its pages, its searchable list of settings and the
//! settings themselves.
use vstd::prelude::*;

use fuzzy_matcher::FuzzyMatcher;
use fuzzy_matcher::skim::SkimMatcherV2;

use crate::text::{owned, str_eq};
use crate::ui::track_filter::{lemma_rank_below, rank, rank_matches};

verus! {

/// The pages of the preferences dialog.
#[derive(Clone, Copy, Debug, PartialEq, Eq, Structural)]
pub enum PreferencesPage {
    General,
    Appearance,
    Playback,
}

/// The icon a preferences page shows in the navigation bar (the glyph
/// itself belongs to the icon font of the interface toolkit).
#[derive(Clone, Copy, Debug, PartialEq, Eq, Structural)]
pub enum PageIcon {
    Settings,
    Palette,
    PlayerPlay,
}

impl PreferencesPage {
    /// The icon of the page: settings, palette, play.
    pub fn icon(&self) -> (i: PageIcon)
        ensures
            i == match *self {
                PreferencesPage::General => PageIcon::Settings,
                PreferencesPage::Appearance => PageIcon::Palette,
                PreferencesPage::Playback => PageIcon::PlayerPlay,
            },
    {
        match self {
            PreferencesPage::General => PageIcon::Settings,
            PreferencesPage::Appearance => PageIcon::Palette,
            PreferencesPage::Playback => PageIcon::PlayerPlay,
        }
    }

    /// The localisation key of the page's title.
    pub fn localized_name(&self) -> (key: String)
        ensures
            key@ == match *self {
                PreferencesPage::General => "general"@,
                PreferencesPage::Appearance => "appearance"@,
                PreferencesPage::Playback => "playback"@,
            },
    {
        match self {
            PreferencesPage::General => owned("general"),
            PreferencesPage::Appearance => owned("appearance"),
            PreferencesPage::Playback => owned("playback"),
        }
    }
}

/// The individual settings.
#[derive(Clone, Copy, Debug, PartialEq, Eq, Structural)]
pub enum Preference {
    Language,
    Theme,
    AutoplayOnQueueAdd,
    RestoreQueueOnStartup,
}

impl Preference {
    /// The localisation key of the setting's title.
    pub fn localized_name(&self) -> (key: String)
        ensures
            key@ == match *self {
                Preference::Language => "language"@,
                Preference::Theme => "theme"@,
                Preference::AutoplayOnQueueAdd => "autoplay_on_queue_add"@,
                Preference::RestoreQueueOnStartup => "restore_queue_on_startup"@,
            },
    {
        match self {
            Preference::Language => owned("language"),
            Preference::Theme => owned("theme"),
            Preference::AutoplayOnQueueAdd => owned("autoplay_on_queue_add"),
            Preference::RestoreQueueOnStartup => owned("restore_queue_on_startup"),
        }
    }

    /// The localisation key of the words the search matches the setting by.
    pub fn localized_tags(&self) -> (key: String)
        ensures
            key@ == match *self {
                Preference::Language => "language_tags"@,
                Preference::Theme => "theme_tags"@,
                Preference::AutoplayOnQueueAdd => "autoplay_on_queue_add_tags"@,
                Preference::RestoreQueueOnStartup => "restore_queue_on_startup_tags"@,
            },
    {
        match self {
            Preference::Language => owned("language_tags"),
            Preference::Theme => owned("theme_tags"),
            Preference::AutoplayOnQueueAdd => owned("autoplay_on_queue_add_tags"),
            Preference::RestoreQueueOnStartup => owned("restore_queue_on_startup_tags"),
        }
    }
}

/// How the interface picks light or dark colors.
#[derive(Clone, Copy, Debug, PartialEq, Eq, Structural)]
pub enum ThemeMode {
    LightMode,
    DarkMode,
    System,
}

/// Events of the preferences dialog.
#[derive(Debug)]
pub enum PreferencesEvent {
    Show,
    Hide,
    SetSelectedPage(PreferencesPage),
    SetSearch(String),
    SetSelectedLanguage(usize),
    SetSelectedTheme(usize),
    ToggleUseSystemTheme,
    ToggleAutoplayOnQueueAdd,
    ToggleRestoreQueueOnStartup,
}

/// Work that the shell carries out after the state changed.
#[derive(Debug)]
pub enum PreferencesAction {
    /// Persist the settings.
    Save,
    /// Rerun the settings search with the current localised texts.
    Search,
    SetLocale(String),
    SetThemeMode(ThemeMode),
}

/// The saved form of the settings.
#[derive(Debug)]
pub struct PreferencesSnapshot {
    pub search_string: String,
    pub selected_language: Option<usize>,
    pub selected_theme: Option<usize>,
    pub follow_system_theme: bool,
    pub autoplay_on_queue_add: bool,
    pub restore_queue_on_startup: bool,
}

/// The preferences dialog and the settings.
#[derive(Debug)]
pub struct PreferencesData {
    pub show: bool,
    pub selected_page: PreferencesPage,
    pub search_string: String,
    pub preferences: Vec<Preference>,
    pub filtered_preferences: Vec<Preference>,
    pub language: Vec<String>,
    pub selected_language: Option<usize>,
    pub theme: Vec<String>,
    pub selected_theme: Option<usize>,
    pub follow_system_theme: bool,
    pub autoplay_on_queue_add: bool,
    pub restore_queue_on_startup: bool,
}

/// The locale that a language entry of the list selects.
pub open spec fn locale_for(name: Option<Seq<char>>) -> Seq<char> {
    match name {
        Some(n) => if n == "System Default"@ || n == "English"@ {
            "en-GB"@
        } else if n == "Deutsch"@ {
            "de"@
        } else if n == "Espa\u{f1}ol"@ {
            "es"@
        } else if n == "Fran\u{e7}ais"@ {
            "fr"@
        } else {
            "en-GB"@
        },
        None => "en-GB"@,
    }
}

/// The saved form of the settings.
pub open spec fn snapshot_of(p: PreferencesData) -> PreferencesSnapshot {
    PreferencesSnapshot {
        search_string: p.search_string,
        selected_language: p.selected_language,
        selected_theme: p.selected_theme,
        follow_system_theme: p.follow_system_theme,
        autoplay_on_queue_add: p.autoplay_on_queue_add,
        restore_queue_on_startup: p.restore_queue_on_startup,
    }
}

/// The preferences after saved settings are taken in; everything else stays.
pub open spec fn loaded(p: PreferencesData, s: PreferencesSnapshot) -> PreferencesData {
    PreferencesData {
        search_string: s.search_string,
        selected_language: s.selected_language,
        selected_theme: s.selected_theme,
        follow_system_theme: s.follow_system_theme,
        autoplay_on_queue_add: s.autoplay_on_queue_add,
        restore_queue_on_startup: s.restore_queue_on_startup,
        ..p
    }
}

/// Saved settings load back as they were saved, into any preferences, and
/// loading them again changes nothing more.
pub proof fn law_saved_preferences_load_back(p: PreferencesData, q: PreferencesData)
    ensures
        snapshot_of(loaded(q, snapshot_of(p))) == snapshot_of(p),
        loaded(loaded(q, snapshot_of(p)), snapshot_of(p)) == loaded(q, snapshot_of(p)),
{
}

/// The theme mode a saved theme selection stands for.
pub open spec fn theme_mode_for(selected: Option<usize>) -> ThemeMode {
    match selected {
        Some(t) => if t == 0 { ThemeMode::LightMode } else { ThemeMode::DarkMode },
        None => ThemeMode::System,
    }
}

/// The lower-case form of a string (`str::to_lowercase`, full Unicode case mapping).
pub uninterp spec fn lowercase(s: Seq<char>) -> Seq<char>;

/// `str::to_lowercase`. The contract names the result; the Unicode case
/// mapping itself is not stated.
#[verifier::external_body]
fn to_lowercase(s: &str) -> (out: String)
    ensures
        out@ == lowercase(s@),
{
    s.to_lowercase()
}

/// The score that the skim fuzzy matcher (V2, case-insensitive) gives
/// `choice` for `pattern`, or `None` when there is no match.
pub uninterp spec fn skim_score_ignore_case(choice: Seq<char>, pattern: Seq<char>) -> Option<i64>;

/// `SkimMatcherV2::default().ignore_case().fuzzy_match(choice, pattern)`. The
/// contract names the result, a function of the two strings; the scoring is
/// not stated.
#[verifier::external_body]
fn skim_fuzzy_match_ignore_case(choice: &str, pattern: &str) -> (score: Option<i64>)
    ensures
        score == skim_score_ignore_case(choice@, pattern@),
{
    SkimMatcherV2::default().ignore_case().fuzzy_match(choice, pattern)
}

/// The settings a search shows: those whose localised tags match, best first.
pub open spec fn search_result(prefs: Seq<Preference>, tags: Seq<Seq<char>>, search: Seq<char>) -> Seq<Preference> {
    let scores = Seq::new(prefs.len(), |i: int| skim_score_ignore_case(lowercase(tags[i]), lowercase(search)));
    let idx = rank(scores);
    Seq::new(idx.len(), |k: int| prefs[idx[k] as int])
}

fn language_locale(name: Option<&String>) -> (out: String)
    ensures
        out@ == locale_for(match name { Some(n) => Some(n@), None => None }),
{
    match name {
        Some(n) => {
            if str_eq(n.as_str(), "System Default") || str_eq(n.as_str(), "English") {
                owned("en-GB")
            } else if str_eq(n.as_str(), "Deutsch") {
                owned("de")
            } else if str_eq(n.as_str(), "Espa\u{f1}ol") {
                owned("es")
            } else if str_eq(n.as_str(), "Fran\u{e7}ais") {
                owned("fr")
            } else {
                owned("en-GB")
            }
        },
        None => owned("en-GB"),
    }
}

impl PreferencesData {
    /// The defaults: general page, system language, dark theme, autoplay on.
    pub fn new() -> (s: Self)
        ensures
            !s.show,
            s.selected_page == PreferencesPage::General,
            s.preferences@ == seq![Preference::Language, Preference::Theme, Preference::AutoplayOnQueueAdd, Preference::RestoreQueueOnStartup],
            s.filtered_preferences@.len() == 0,
            s.language@.len() == 3,
            s.language@[0]@ == "System Default"@,
            s.language@[1]@ == "English (UK)"@,
            s.language@[2]@ == "English (US)"@,
            s.selected_language == Some(0usize),
            s.theme@.len() == 2,
            s.theme@[0]@ == "Light"@,
            s.theme@[1]@ == "Dark"@,
            s.selected_theme == Some(1usize),
            !s.follow_system_theme,
            s.autoplay_on_queue_add,
            !s.restore_queue_on_startup,
    {
        let s = PreferencesData {
            show: false,
            selected_page: PreferencesPage::General,
            search_string: String::new(),
            preferences: vec![Preference::Language, Preference::Theme, Preference::AutoplayOnQueueAdd, Preference::RestoreQueueOnStartup],
            filtered_preferences: Vec::new(),
            language: vec![owned("System Default"), owned("English (UK)"), owned("English (US)")],
            selected_language: Some(0),
            theme: vec![owned("Light"), owned("Dark")],
            selected_theme: Some(1),
            follow_system_theme: false,
            autoplay_on_queue_add: true,
            restore_queue_on_startup: false,
        };
        assert(s.preferences@ =~= seq![Preference::Language, Preference::Theme, Preference::AutoplayOnQueueAdd, Preference::RestoreQueueOnStartup]);
        s
    }

    /// Reruns the settings search; `tags[i]` is the localised tag text of
    /// `preferences[i]`.
    pub fn search(&mut self, tags: &Vec<String>)
        requires
            tags@.len() == old(self).preferences@.len(),
        ensures
            final(self).filtered_preferences@ == search_result(
                old(self).preferences@,
                tags@.map_values(|t: String| t@),
                old(self).search_string@,
            ),
            final(self).preferences == old(self).preferences,
            final(self).search_string == old(self).search_string,
    {
        let needle = to_lowercase(self.search_string.as_str());
        let ghost tv = tags@.map_values(|t: String| t@);
        let ghost want = Seq::new(self.preferences@.len(), |i: int| skim_score_ignore_case(lowercase(tv[i]), lowercase(self.search_string@)));
        let mut scores: Vec<Option<i64>> = Vec::new();
        let mut i: usize = 0;
        while i < tags.len()
            invariant
                i <= tags.len(),
                tags@.len() == self.preferences@.len(),
                needle@ == lowercase(self.search_string@),
                tv == tags@.map_values(|t: String| t@),
                want == Seq::new(self.preferences@.len(), |i: int| skim_score_ignore_case(lowercase(tv[i]), lowercase(self.search_string@))),
                scores@ == want.take(i as int),
            decreases tags.len() - i,
        {
            let name = to_lowercase(tags[i].as_str());
            scores.push(skim_fuzzy_match_ignore_case(name.as_str(), needle.as_str()));
            i += 1;
            assert(scores@ =~= want.take(i as int));
        }
        assert(scores@ =~= want);
        let idx = rank_matches(&scores);
        proof { lemma_rank_below(scores@); }
        let mut out: Vec<Preference> = Vec::new();
        let mut k: usize = 0;
        while k < idx.len()
            invariant
                k <= idx.len(),
                idx@ == rank(scores@),
                scores@.len() == self.preferences@.len(),
                forall|j: int| 0 <= j < idx@.len() ==> (#[trigger] idx@[j]) < scores@.len(),
                out@ == Seq::new(k as nat, |j: int| self.preferences@[idx@[j] as int]),
            decreases idx.len() - k,
        {
            out.push(self.preferences[idx[k]]);
            k += 1;
            assert(out@ =~= Seq::new(k as nat, |j: int| self.preferences@[idx@[j] as int]));
        }
        self.filtered_preferences = out;
    }

    /// The settings in their saved form.
    pub fn snapshot(&self) -> (s: PreferencesSnapshot)
        ensures
            s == snapshot_of(*self),
    {
        PreferencesSnapshot {
            search_string: self.search_string.clone(),
            selected_language: self.selected_language,
            selected_theme: self.selected_theme,
            follow_system_theme: self.follow_system_theme,
            autoplay_on_queue_add: self.autoplay_on_queue_add,
            restore_queue_on_startup: self.restore_queue_on_startup,
        }
    }

    /// Takes saved settings and returns the theme mode they select. A theme
    /// index other than light (0) or dark (1) is not a saved value.
    pub fn load(&mut self, saved: PreferencesSnapshot) -> (mode: ThemeMode)
        requires
            saved.selected_theme matches Some(t) ==> t <= 1,
        ensures
            mode == theme_mode_for(saved.selected_theme),
            *final(self) == loaded(*old(self), saved),
    {
        self.search_string = saved.search_string;
        self.selected_language = saved.selected_language;
        self.selected_theme = saved.selected_theme;
        self.follow_system_theme = saved.follow_system_theme;
        self.autoplay_on_queue_add = saved.autoplay_on_queue_add;
        self.restore_queue_on_startup = saved.restore_queue_on_startup;
        match saved.selected_theme {
            Some(t) => if t == 0 { ThemeMode::LightMode } else { ThemeMode::DarkMode },
            None => ThemeMode::System,
        }
    }

    /// Handles one preferences event and returns the work it asks for.
    pub fn event(&mut self, event: &PreferencesEvent) -> (actions: Vec<PreferencesAction>)
        ensures
            match *event {
                PreferencesEvent::Show => final(self).show && final(self).selected_page == old(self).selected_page
                    && actions@.len() == 0,
                PreferencesEvent::Hide => !final(self).show && actions@.len() == 1 && actions@[0] is Save,
                PreferencesEvent::SetSelectedPage(p) => final(self).selected_page == p && actions@.len() == 0,
                PreferencesEvent::SetSearch(s) => final(self).search_string@ == s@
                    && actions@.len() == 1 && actions@[0] is Search,
                PreferencesEvent::SetSelectedLanguage(i) => final(self).selected_language == Some(i)
                    && actions@.len() == 2
                    && (actions@[0] matches PreferencesAction::SetLocale(l)
                        && l@ == locale_for(if i < old(self).language@.len() { Some(old(self).language@[i as int]@) } else { None }))
                    && actions@[1] is Save,
                PreferencesEvent::SetSelectedTheme(t) => final(self).selected_theme == Some(t)
                    && !final(self).follow_system_theme
                    && actions@ == seq![
                        PreferencesAction::SetThemeMode(if t == 0 { ThemeMode::LightMode } else { ThemeMode::DarkMode }),
                        PreferencesAction::Save],
                PreferencesEvent::ToggleUseSystemTheme => final(self).follow_system_theme == !old(self).follow_system_theme
                    && actions@ == seq![PreferencesAction::SetThemeMode(ThemeMode::System), PreferencesAction::Save],
                PreferencesEvent::ToggleAutoplayOnQueueAdd => final(self).autoplay_on_queue_add == !old(self).autoplay_on_queue_add
                    && actions@ == seq![PreferencesAction::Save],
                PreferencesEvent::ToggleRestoreQueueOnStartup => final(self).restore_queue_on_startup == !old(self).restore_queue_on_startup
                    && actions@ == seq![PreferencesAction::Save],
            },
            final(self).preferences == old(self).preferences,
            final(self).language == old(self).language,
            final(self).theme == old(self).theme,
            !(*event is SetSearch) ==> final(self).search_string == old(self).search_string,
            !(*event is SetSelectedTheme || *event is ToggleUseSystemTheme) ==> final(self).follow_system_theme == old(self).follow_system_theme,
            !(*event is ToggleAutoplayOnQueueAdd) ==> final(self).autoplay_on_queue_add == old(self).autoplay_on_queue_add,
            !(*event is ToggleRestoreQueueOnStartup) ==> final(self).restore_queue_on_startup == old(self).restore_queue_on_startup,
            !(*event is SetSelectedTheme) ==> final(self).selected_theme == old(self).selected_theme,
            !(*event is SetSelectedLanguage) ==> final(self).selected_language == old(self).selected_language,
            !(*event is Show || *event is Hide) ==> final(self).show == old(self).show,
            !(*event is SetSelectedPage) ==> final(self).selected_page == old(self).selected_page,
    {
        match event {
            PreferencesEvent::Show => {
                self.show = true;
                Vec::new()
            },
            PreferencesEvent::Hide => {
                self.show = false;
                vec![PreferencesAction::Save]
            },
            PreferencesEvent::SetSelectedPage(p) => {
                self.selected_page = *p;
                Vec::new()
            },
            PreferencesEvent::SetSearch(s) => {
                self.search_string = s.clone();
                vec![PreferencesAction::Search]
            },
            PreferencesEvent::SetSelectedLanguage(i) => {
                self.selected_language = Some(*i);
                let name = if *i < self.language.len() { Some(&self.language[*i]) } else { None };
                let lang = language_locale(name);
                vec![PreferencesAction::SetLocale(lang), PreferencesAction::Save]
            },
            PreferencesEvent::SetSelectedTheme(t) => {
                self.selected_theme = Some(*t);
                self.follow_system_theme = false;
                let mode = if *t == 0 { ThemeMode::LightMode } else { ThemeMode::DarkMode };
                vec![PreferencesAction::SetThemeMode(mode), PreferencesAction::Save]
            },
            PreferencesEvent::ToggleUseSystemTheme => {
                self.follow_system_theme = !self.follow_system_theme;
                vec![PreferencesAction::SetThemeMode(ThemeMode::System), PreferencesAction::Save]
            },
            PreferencesEvent::ToggleAutoplayOnQueueAdd => {
                self.autoplay_on_queue_add = !self.autoplay_on_queue_add;
                vec![PreferencesAction::Save]
            },
            PreferencesEvent::ToggleRestoreQueueOnStartup => {
                self.restore_queue_on_startup = !self.restore_queue_on_startup;
                vec![PreferencesAction::Save]
            },
        }
    }
}

} // verus!
