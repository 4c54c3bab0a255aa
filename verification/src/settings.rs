//! Application settings: defaults, theme aliases and the validation of a
//! single-key update. Reading and writing `settings.toml` stays outside.

use vstd::prelude::*;

use crate::error::DbError;
use crate::text::{
    ascii_lower, char_to_ascii_lower, chars_are_blank, chars_of, is_white_space,
    lemma_trim_empty_iff_blank, str_equals, string_from_chars, trim_chars, trim_seq,
};
use crate::text_pack::{is_language_code, valid_language_code};

verus! {

/// The settings this library validates (the fractional ones, sound volume
/// and the speed and accuracy goals, are handled by the caller).
#[derive(Debug, Clone)]
pub struct AppSettings {
    pub theme: String,
    pub font_size: i64,
    pub caret_style: String,
    pub caret_position: String,
    pub caret_animation: String,
    pub show_live_wpm: bool,
    pub show_accuracy: bool,
    pub show_keyboard_trainer: bool,
    pub show_hand_guide: bool,
    pub show_layout_warnings: bool,
    pub show_capslock_warnings: bool,
    pub sound_enabled: bool,
    pub verbose_logging: bool,
    pub zen_mode_enabled: bool,
    pub blind_mode_enabled: bool,
    pub ui_language: String,
    pub practice_language: String,
    pub onboarding_completed: bool,
    pub keyboard_layout: String,
    pub vim_mode: bool,
    pub daily_goal_type: String,
    pub daily_goal_minutes: i64,
    pub pomodoro_work_min: i64,
    pub pomodoro_break_min: i64,
    pub custom_theme_colors: String,
}

/// The settings as plain values.
pub ghost struct SettingsView {
    pub theme: Seq<char>,
    pub font_size: i64,
    pub caret_style: Seq<char>,
    pub caret_position: Seq<char>,
    pub caret_animation: Seq<char>,
    pub show_live_wpm: bool,
    pub show_accuracy: bool,
    pub show_keyboard_trainer: bool,
    pub show_hand_guide: bool,
    pub show_layout_warnings: bool,
    pub show_capslock_warnings: bool,
    pub sound_enabled: bool,
    pub verbose_logging: bool,
    pub zen_mode_enabled: bool,
    pub blind_mode_enabled: bool,
    pub ui_language: Seq<char>,
    pub practice_language: Seq<char>,
    pub onboarding_completed: bool,
    pub keyboard_layout: Seq<char>,
    pub vim_mode: bool,
    pub daily_goal_type: Seq<char>,
    pub daily_goal_minutes: i64,
    pub pomodoro_work_min: i64,
    pub pomodoro_break_min: i64,
    pub custom_theme_colors: Seq<char>,
}

impl View for AppSettings {
    type V = SettingsView;

    open spec fn view(&self) -> SettingsView {
        SettingsView {
            theme: self.theme@,
            font_size: self.font_size,
            caret_style: self.caret_style@,
            caret_position: self.caret_position@,
            caret_animation: self.caret_animation@,
            show_live_wpm: self.show_live_wpm,
            show_accuracy: self.show_accuracy,
            show_keyboard_trainer: self.show_keyboard_trainer,
            show_hand_guide: self.show_hand_guide,
            show_layout_warnings: self.show_layout_warnings,
            show_capslock_warnings: self.show_capslock_warnings,
            sound_enabled: self.sound_enabled,
            verbose_logging: self.verbose_logging,
            zen_mode_enabled: self.zen_mode_enabled,
            blind_mode_enabled: self.blind_mode_enabled,
            ui_language: self.ui_language@,
            practice_language: self.practice_language@,
            onboarding_completed: self.onboarding_completed,
            keyboard_layout: self.keyboard_layout@,
            vim_mode: self.vim_mode,
            daily_goal_type: self.daily_goal_type@,
            daily_goal_minutes: self.daily_goal_minutes,
            pomodoro_work_min: self.pomodoro_work_min,
            pomodoro_break_min: self.pomodoro_break_min,
            custom_theme_colors: self.custom_theme_colors@,
        }
    }
}

/// The default settings.
pub open spec fn default_settings() -> SettingsView {
    SettingsView {
        theme: "racoon_graphite"@,
        font_size: 24,
        caret_style: "underline"@,
        caret_position: "before"@,
        caret_animation: "blink"@,
        show_live_wpm: true,
        show_accuracy: true,
        show_keyboard_trainer: true,
        show_hand_guide: true,
        show_layout_warnings: true,
        show_capslock_warnings: true,
        sound_enabled: false,
        verbose_logging: false,
        zen_mode_enabled: false,
        blind_mode_enabled: false,
        ui_language: "en"@,
        practice_language: "en"@,
        onboarding_completed: false,
        keyboard_layout: "qwerty"@,
        vim_mode: false,
        daily_goal_type: "time"@,
        daily_goal_minutes: 0,
        pomodoro_work_min: 25,
        pomodoro_break_min: 5,
        custom_theme_colors: Seq::empty(),
    }
}

impl Default for AppSettings {
    fn default() -> (s: AppSettings)
        ensures
            s@ == default_settings(),
    {
        let s = AppSettings {
            theme: "racoon_graphite".to_owned(),
            font_size: 24,
            caret_style: "underline".to_owned(),
            caret_position: "before".to_owned(),
            caret_animation: "blink".to_owned(),
            show_live_wpm: true,
            show_accuracy: true,
            show_keyboard_trainer: true,
            show_hand_guide: true,
            show_layout_warnings: true,
            show_capslock_warnings: true,
            sound_enabled: false,
            verbose_logging: false,
            zen_mode_enabled: false,
            blind_mode_enabled: false,
            ui_language: "en".to_owned(),
            practice_language: "en".to_owned(),
            onboarding_completed: false,
            keyboard_layout: "qwerty".to_owned(),
            vim_mode: false,
            daily_goal_type: "time".to_owned(),
            daily_goal_minutes: 0,
            pomodoro_work_min: 25,
            pomodoro_break_min: 5,
            custom_theme_colors: String::new(),
        };
        assert(s@.custom_theme_colors =~= Seq::<char>::empty());
        s
    }
}

/// A current built-in theme id (or `custom`).
pub open spec fn is_current_theme(t: Seq<char>) -> bool {
    ||| t == "racoon_graphite"@
    ||| t == "racoon_silver"@
    ||| t == "racoon_warm"@
    ||| t == "racoon_high_contrast"@
    ||| t == "midnight_ink"@
    ||| t == "arctic_slate"@
    ||| t == "racoon_forest"@
    ||| t == "moss"@
    ||| t == "coffee"@
    ||| t == "paper"@
    ||| t == "sandstone"@
    ||| t == "mist"@
    ||| t == "lavender_dusk"@
    ||| t == "plum"@
    ||| t == "ocean"@
    ||| t == "deep_sea"@
    ||| t == "ember"@
    ||| t == "burgundy"@
    ||| t == "amber_terminal"@
    ||| t == "green_terminal"@
    ||| t == "steel_blue"@
    ||| t == "carbon"@
    ||| t == "moonlight"@
    ||| t == "dawn"@
    ||| t == "sage"@
    ||| t == "custom"@
}

/// The theme id a stored theme loads as: current ids stay, the legacy
/// `racoon_dark` and `racoon_light` map to their successors, anything else
/// falls back to `racoon_graphite`.
pub open spec fn normalized_theme(t: Seq<char>) -> Seq<char> {
    if is_current_theme(t) {
        t
    } else if t == "racoon_dark"@ {
        "racoon_graphite"@
    } else if t == "racoon_light"@ {
        "racoon_silver"@
    } else {
        "racoon_graphite"@
    }
}

/// Normalizing a theme is idempotent: its result is always a current id,
/// and a theme id is left as it is exactly when it is a current built-in id
/// or `custom`.
pub proof fn theme_normalization_is_idempotent(t: Seq<char>)
    ensures
        is_current_theme(normalized_theme(t)),
        normalized_theme(normalized_theme(t)) == normalized_theme(t),
        normalized_theme(t) == t <==> is_current_theme(t),
{
}

fn is_current_theme_id(theme: &str) -> (b: bool)
    ensures
        b == is_current_theme(theme@),
{
    str_equals(theme, "racoon_graphite")
        || str_equals(theme, "racoon_silver")
        || str_equals(theme, "racoon_warm")
        || str_equals(theme, "racoon_high_contrast")
        || str_equals(theme, "midnight_ink")
        || str_equals(theme, "arctic_slate")
        || str_equals(theme, "racoon_forest")
        || str_equals(theme, "moss")
        || str_equals(theme, "coffee")
        || str_equals(theme, "paper")
        || str_equals(theme, "sandstone")
        || str_equals(theme, "mist")
        || str_equals(theme, "lavender_dusk")
        || str_equals(theme, "plum")
        || str_equals(theme, "ocean")
        || str_equals(theme, "deep_sea")
        || str_equals(theme, "ember")
        || str_equals(theme, "burgundy")
        || str_equals(theme, "amber_terminal")
        || str_equals(theme, "green_terminal")
        || str_equals(theme, "steel_blue")
        || str_equals(theme, "carbon")
        || str_equals(theme, "moonlight")
        || str_equals(theme, "dawn")
        || str_equals(theme, "sage")
        || str_equals(theme, "custom")
}

/// The theme id a stored theme loads as.
pub fn normalize_theme(theme: &str) -> (r: String)
    ensures
        r@ == normalized_theme(theme@),
{
    if is_current_theme_id(theme) {
        theme.to_owned()
    } else if str_equals(theme, "racoon_dark") {
        "racoon_graphite".to_owned()
    } else if str_equals(theme, "racoon_light") {
        "racoon_silver".to_owned()
    } else {
        "racoon_graphite".to_owned()
    }
}

/// A supported caret style (current or legacy).
pub open spec fn is_caret_style(v: Seq<char>) -> bool {
    v == "thin"@ || v == "thick"@ || v == "bubble"@ || v == "off"@ || v == "underline"@ || v
        == "block"@ || v == "solid"@
}

/// A caret position.
pub open spec fn is_caret_position(v: Seq<char>) -> bool {
    v == "before"@ || v == "after"@
}

/// A caret animation.
pub open spec fn is_caret_animation(v: Seq<char>) -> bool {
    v == "blink"@ || v == "pulse"@
}

/// A keyboard layout.
pub open spec fn is_keyboard_layout(v: Seq<char>) -> bool {
    v == "qwerty"@ || v == "jcuken"@ || v == "dvorak"@
}

/// A daily goal type.
pub open spec fn is_daily_goal_type(v: Seq<char>) -> bool {
    v == "time"@ || v == "wpm"@ || v == "accuracy"@
}

fn valid_caret_style(value: &str) -> (b: bool)
    ensures
        b == is_caret_style(value@),
{
    str_equals(value, "thin") || str_equals(value, "thick") || str_equals(value, "bubble")
        || str_equals(value, "off") || str_equals(value, "underline") || str_equals(value, "block")
        || str_equals(value, "solid")
}

fn valid_caret_position(value: &str) -> (b: bool)
    ensures
        b == is_caret_position(value@),
{
    str_equals(value, "before") || str_equals(value, "after")
}

fn valid_caret_animation(value: &str) -> (b: bool)
    ensures
        b == is_caret_animation(value@),
{
    str_equals(value, "blink") || str_equals(value, "pulse")
}

fn valid_keyboard_layout(value: &str) -> (b: bool)
    ensures
        b == is_keyboard_layout(value@),
{
    str_equals(value, "qwerty") || str_equals(value, "jcuken") || str_equals(value, "dvorak")
}

fn valid_daily_goal_type(value: &str) -> (b: bool)
    ensures
        b == is_daily_goal_type(value@),
{
    str_equals(value, "time") || str_equals(value, "wpm") || str_equals(value, "accuracy")
}

// ── Custom theme colours ──

/// Longest accepted custom theme document, in characters.
pub const MAX_CUSTOM_THEME_JSON_CHARS: usize = 16_384;

/// A CSS variable that a custom theme may set.
pub open spec fn is_theme_variable(k: Seq<char>) -> bool {
    ||| k == "--color-app-background"@
    ||| k == "--color-surface-primary"@
    ||| k == "--color-surface-raised"@
    ||| k == "--color-surface-hover"@
    ||| k == "--color-surface-active"@
    ||| k == "--color-text-primary"@
    ||| k == "--color-text-secondary"@
    ||| k == "--color-text-muted"@
    ||| k == "--color-text-disabled"@
    ||| k == "--color-border"@
    ||| k == "--color-border-strong"@
    ||| k == "--color-accent"@
    ||| k == "--color-accent-hover"@
    ||| k == "--color-accent-active"@
    ||| k == "--color-accent-text"@
    ||| k == "--color-focus-ring"@
    ||| k == "--color-selection"@
    ||| k == "--color-caret"@
    ||| k == "--color-typing-pending"@
    ||| k == "--color-typing-current"@
    ||| k == "--color-typing-correct"@
    ||| k == "--color-typing-incorrect"@
    ||| k == "--color-typing-corrected"@
    ||| k == "--color-key-background"@
    ||| k == "--color-key-border"@
    ||| k == "--color-key-active"@
    ||| k == "--color-key-pressed"@
    ||| k == "--color-success"@
    ||| k == "--color-warning"@
    ||| k == "--color-error"@
    ||| k == "--color-information"@
    ||| k == "--color-chart-primary"@
    ||| k == "--color-chart-secondary"@
    ||| k == "--color-chart-positive"@
    ||| k == "--color-chart-negative"@
    ||| k == "--color-chart-grid"@
    ||| k == "--color-chart-axis"@
    ||| k == "--color-chart-label"@
    ||| k == "--color-chart-tooltip-background"@
    ||| k == "--color-chart-tooltip-border"@
    ||| k == "--color-chart-selected"@
    ||| k == "--color-progress-track"@
    ||| k == "--color-progress-fill"@
    ||| k == "--color-overlay"@
    ||| k == "--color-modal-surface"@
    ||| k == "--color-tooltip-surface"@
    ||| k == "--color-scrollbar"@
    ||| k == "--color-scrollbar-hover"@
}

fn is_custom_theme_variable(key: &str) -> (b: bool)
    ensures
        b == is_theme_variable(key@),
{
    str_equals(key, "--color-app-background")
        || str_equals(key, "--color-surface-primary")
        || str_equals(key, "--color-surface-raised")
        || str_equals(key, "--color-surface-hover")
        || str_equals(key, "--color-surface-active")
        || str_equals(key, "--color-text-primary")
        || str_equals(key, "--color-text-secondary")
        || str_equals(key, "--color-text-muted")
        || str_equals(key, "--color-text-disabled")
        || str_equals(key, "--color-border")
        || str_equals(key, "--color-border-strong")
        || str_equals(key, "--color-accent")
        || str_equals(key, "--color-accent-hover")
        || str_equals(key, "--color-accent-active")
        || str_equals(key, "--color-accent-text")
        || str_equals(key, "--color-focus-ring")
        || str_equals(key, "--color-selection")
        || str_equals(key, "--color-caret")
        || str_equals(key, "--color-typing-pending")
        || str_equals(key, "--color-typing-current")
        || str_equals(key, "--color-typing-correct")
        || str_equals(key, "--color-typing-incorrect")
        || str_equals(key, "--color-typing-corrected")
        || str_equals(key, "--color-key-background")
        || str_equals(key, "--color-key-border")
        || str_equals(key, "--color-key-active")
        || str_equals(key, "--color-key-pressed")
        || str_equals(key, "--color-success")
        || str_equals(key, "--color-warning")
        || str_equals(key, "--color-error")
        || str_equals(key, "--color-information")
        || str_equals(key, "--color-chart-primary")
        || str_equals(key, "--color-chart-secondary")
        || str_equals(key, "--color-chart-positive")
        || str_equals(key, "--color-chart-negative")
        || str_equals(key, "--color-chart-grid")
        || str_equals(key, "--color-chart-axis")
        || str_equals(key, "--color-chart-label")
        || str_equals(key, "--color-chart-tooltip-background")
        || str_equals(key, "--color-chart-tooltip-border")
        || str_equals(key, "--color-chart-selected")
        || str_equals(key, "--color-progress-track")
        || str_equals(key, "--color-progress-fill")
        || str_equals(key, "--color-overlay")
        || str_equals(key, "--color-modal-surface")
        || str_equals(key, "--color-tooltip-surface")
        || str_equals(key, "--color-scrollbar")
        || str_equals(key, "--color-scrollbar-hover")
}

/// An ASCII hexadecimal digit.
pub open spec fn is_hex_digit(c: char) -> bool {
    ('0' <= c && c <= '9') || ('a' <= c && c <= 'f') || ('A' <= c && c <= 'F')
}

/// `s` without its leading `#` characters.
pub open spec fn strip_hashes(s: Seq<char>) -> Seq<char>
    decreases s.len(),
{
    if s.len() > 0 && s[0] == '#' {
        strip_hashes(s.drop_first())
    } else {
        s
    }
}

/// A colour normalized to `#rrggbb` in lower case: trimmed, leading `#`s
/// dropped, then exactly six hexadecimal digits; `None` otherwise.
pub open spec fn theme_color(color: Seq<char>) -> Option<Seq<char>> {
    let hex = strip_hashes(trim_seq(color));
    if hex.len() == 6 && forall|i: int| 0 <= i < hex.len() ==> is_hex_digit(#[trigger] hex[i]) {
        Some(seq!['#'] + hex.map_values(|c: char| ascii_lower(c)))
    } else {
        None
    }
}

/// The entries of a JSON object as chrono-free plain values: `Ok(None)` when
/// the JSON is not an object, each value `Some` when it is a string.
pub uninterp spec fn json_object_view(text: Seq<char>) -> Result<
    Option<Seq<(Seq<char>, Option<Seq<char>>)>>,
    Seq<char>,
>;

/// The plain values of a decoded JSON object.
pub open spec fn json_entries_view(r: Result<Option<Vec<(String, Option<String>)>>, String>) -> Result<
    Option<Seq<(Seq<char>, Option<Seq<char>>)>>,
    Seq<char>,
> {
    match r {
        Err(e) => Err(e@),
        Ok(None) => Ok(None),
        Ok(Some(v)) => Ok(
            Some(
                v@.map_values(
                    |x: (String, Option<String>)|
                        (
                            x.0@,
                            match x.1 {
                                Some(s) => Some(s@),
                                None => None,
                            },
                        ),
                ),
            ),
        ),
    }
}

/// Decodes `text` with `serde_json::from_str` into a `serde_json::Value`
/// and, when it is an object, lists its entries in the map's iteration
/// order with the string values kept; a parse error is kept as its
/// message. The contract only names the result.
#[verifier::external_body]
fn parse_json_object(text: &str) -> (r: Result<Option<Vec<(String, Option<String>)>>, String>)
    ensures
        json_entries_view(r) == json_object_view(text@),
{
    match serde_json::from_str::<serde_json::Value>(text) {
        Err(error) => Err(error.to_string()),
        Ok(serde_json::Value::Object(map)) => Ok(
            Some(
                map.into_iter().map(
                    |(key, value)|
                        match value {
                            serde_json::Value::String(s) => (key, Some(s)),
                            _ => (key, None),
                        },
                ).collect(),
            ),
        ),
        Ok(_) => Ok(None),
    }
}

/// The JSON text of a map from strings to strings, or the serializer's
/// error message.
pub uninterp spec fn json_of_string_map(entries: Seq<(Seq<char>, Seq<char>)>) -> Result<
    Seq<char>,
    Seq<char>,
>;

/// The plain values of string pairs.
pub open spec fn string_pair_views(v: Seq<(String, String)>) -> Seq<(Seq<char>, Seq<char>)> {
    v.map_values(|x: (String, String)| (x.0@, x.1@))
}

/// The plain values of a string result.
pub open spec fn string_result_view(r: Result<String, String>) -> Result<Seq<char>, Seq<char>> {
    match r {
        Ok(s) => Ok(s@),
        Err(e) => Err(e@),
    }
}

/// Collects the pairs into a `BTreeMap<String, String>` and serializes it
/// with `serde_json::to_string`; an error is kept as its message. The
/// contract only names the result.
#[verifier::external_body]
fn string_map_json(entries: &Vec<(String, String)>) -> (r: Result<String, String>)
    ensures
        string_result_view(r) == json_of_string_map(string_pair_views(entries@)),
{
    let map: std::collections::BTreeMap<String, String> = entries.iter().cloned().collect();
    serde_json::to_string(&map).map_err(|error| error.to_string())
}

/// The normalized colours of the object entries, or the first refusal: an
/// unknown variable, a value that is not a string, or a malformed colour.
pub open spec fn theme_entries(entries: Seq<(Seq<char>, Option<Seq<char>>)>) -> Result<
    Seq<(Seq<char>, Seq<char>)>,
    Seq<char>,
>
    decreases entries.len(),
{
    if entries.len() == 0 {
        Ok(Seq::empty())
    } else {
        match theme_entries(entries.drop_last()) {
            Err(m) => Err(m),
            Ok(prev) => {
                let key = entries.last().0;
                if !is_theme_variable(key) {
                    Err("Unsupported custom theme variable: "@ + key)
                } else {
                    match entries.last().1 {
                        None => Err(key + " must be a hex color string"@),
                        Some(c) => match theme_color(c) {
                            None => Err(key + " must be a six-digit hex color like #rrggbb"@),
                            Some(n) => Ok(prev.push((key, n))),
                        },
                    }
                }
            },
        }
    }
}

/// The stored form of a custom theme document, or why it is refused: a
/// blank document clears the theme; otherwise at most
/// `MAX_CUSTOM_THEME_JSON_CHARS` characters of a JSON object whose keys are
/// theme variables and whose values are hex colours, re-serialized with the
/// colours normalized.
pub open spec fn custom_theme_result(value: Seq<char>) -> Result<Seq<char>, Seq<char>> {
    if trim_seq(value).len() == 0 {
        Ok(Seq::empty())
    } else if value.len() > MAX_CUSTOM_THEME_JSON_CHARS {
        Err("custom_theme_colors must be at most 16384 characters"@)
    } else {
        match json_object_view(value) {
            Err(e) => Err("custom_theme_colors must be valid JSON: "@ + e),
            Ok(None) => Err("custom_theme_colors must be a JSON object"@),
            Ok(Some(entries)) => match theme_entries(entries) {
                Err(m) => Err(m),
                Ok(normalized) => match json_of_string_map(normalized) {
                    Ok(j) => Ok(j),
                    Err(e) => Err("custom_theme_colors serialization failed: "@ + e),
                },
            },
        }
    }
}

fn validation_concat(a: &str, b: &str) -> (e: DbError)
    ensures
        e matches DbError::Validation(m) && m@ == a@ + b@,
{
    let mut m = chars_of(a);
    let mut tail = chars_of(b);
    m.append(&mut tail);
    DbError::Validation(string_from_chars(m.as_slice()))
}

fn validation_msg(a: &str) -> (e: DbError)
    ensures
        e matches DbError::Validation(m) && m@ == a@,
{
    DbError::Validation(a.to_owned())
}

/// Normalizes one colour value.
fn normalize_color(color: &str) -> (r: Option<String>)
    ensures
        r matches Some(s) ==> theme_color(color@) == Some(s@),
        r is None ==> theme_color(color@) is None,
{
    let cs = chars_of(color);
    let trimmed = trim_chars(cs.as_slice());
    let mut start: usize = 0;
    assert(trimmed@.subrange(0, trimmed@.len() as int) =~= trimmed@);
    while start < trimmed.len() && trimmed[start] == '#'
        invariant
            start <= trimmed.len(),
            strip_hashes(trimmed@) == strip_hashes(trimmed@.subrange(start as int, trimmed@.len() as int)),
        decreases trimmed.len() - start,
    {
        assert(trimmed@.subrange(start as int, trimmed@.len() as int).drop_first() =~= trimmed@.subrange(
            start + 1,
            trimmed@.len() as int,
        ));
        start = start + 1;
    }
    let ghost hex = trimmed@.subrange(start as int, trimmed@.len() as int);
    assert(strip_hashes(hex) == hex);
    if trimmed.len() - start != 6 {
        return None;
    }
    let mut out: Vec<char> = Vec::new();
    out.push('#');
    let mut k: usize = start;
    while k < trimmed.len()
        invariant
            start <= k <= trimmed.len(),
            hex == trimmed@.subrange(start as int, trimmed@.len() as int),
            hex == strip_hashes(trim_seq(color@)),
            hex.len() == 6,
            forall|i: int| 0 <= i < k - start ==> is_hex_digit(#[trigger] hex[i]),
            out@ == seq!['#'] + hex.take(k - start).map_values(|c: char| ascii_lower(c)),
        decreases trimmed.len() - k,
    {
        let c = trimmed[k];
        assert(hex[k - start] == c);
        if !(('0' <= c && c <= '9') || ('a' <= c && c <= 'f') || ('A' <= c && c <= 'F')) {
            return None;
        }
        out.push(char_to_ascii_lower(c));
        k = k + 1;
        assert(out@ =~= seq!['#'] + hex.take(k - start).map_values(|c: char| ascii_lower(c)));
    }
    assert(hex.take(hex.len() as int) =~= hex);
    Some(string_from_chars(out.as_slice()))
}

/// Validates a custom theme document and gives its stored form.
pub fn validate_custom_theme_json(value: &str) -> (r: Result<String, DbError>)
    ensures
        r matches Ok(s) ==> custom_theme_result(value@) == Ok::<Seq<char>, Seq<char>>(s@),
        r matches Err(e) ==> e matches DbError::Validation(m) && custom_theme_result(value@)
            == Err::<Seq<char>, Seq<char>>(m@),
{
    let cs = chars_of(value);
    proof {
        lemma_trim_empty_iff_blank(value@);
    }
    if chars_are_blank(cs.as_slice()) {
        let empty = String::new();
        assert(empty@ =~= Seq::<char>::empty());
        return Ok(empty);
    }
    if cs.len() > MAX_CUSTOM_THEME_JSON_CHARS {
        return Err(validation_msg("custom_theme_colors must be at most 16384 characters"));
    }
    let parsed = parse_json_object(value);
    let entries = match parsed {
        Err(error) => {
            return Err(validation_concat("custom_theme_colors must be valid JSON: ", error.as_str()));
        },
        Ok(None) => {
            return Err(validation_msg("custom_theme_colors must be a JSON object"));
        },
        Ok(Some(entries)) => entries,
    };
    let ghost ev = json_entries_view(Ok::<Option<Vec<(String, Option<String>)>>, String>(Some(entries)))->Ok_0->Some_0;
    assert(ev == entries@.map_values(
        |x: (String, Option<String>)|
            (
                x.0@,
                match x.1 {
                    Some(s) => Some(s@),
                    None => None,
                },
            ),
    ));
    let mut normalized: Vec<(String, String)> = Vec::new();
    assert(string_pair_views(normalized@) =~= Seq::<(Seq<char>, Seq<char>)>::empty());
    assert(ev.take(0) =~= Seq::<(Seq<char>, Option<Seq<char>>)>::empty());
    let mut i: usize = 0;
    while i < entries.len()
        invariant
            i <= entries.len(),
            ev.len() == entries@.len(),
            json_object_view(value@) == Ok::<
                Option<Seq<(Seq<char>, Option<Seq<char>>)>>,
                Seq<char>,
            >(Some(ev)),
            trim_seq(value@).len() != 0,
            value@.len() <= MAX_CUSTOM_THEME_JSON_CHARS,
            forall|j: int|
                0 <= j < entries@.len() ==> (#[trigger] ev[j]).0 == entries@[j].0@ && ev[j].1 == (
                match entries@[j].1 {
                    Some(s) => Some(s@),
                    None => None,
                }),
            theme_entries(ev.take(i as int)) == Ok::<Seq<(Seq<char>, Seq<char>)>, Seq<char>>(
                string_pair_views(normalized@),
            ),
        decreases entries.len() - i,
    {
        assert(ev.take(i + 1).drop_last() =~= ev.take(i as int));
        assert(ev.take(i + 1).last() == ev[i as int]);
        let (key, color) = &entries[i];
        if !is_custom_theme_variable(key.as_str()) {
            proof {
                lemma_theme_entries_prefix_err(ev, i + 1);
            }
            return Err(validation_concat("Unsupported custom theme variable: ", key.as_str()));
        }
        match color {
            None => {
                proof {
                    lemma_theme_entries_prefix_err(ev, i + 1);
                }
                return Err(validation_concat(key.as_str(), " must be a hex color string"));
            },
            Some(c) => match normalize_color(c.as_str()) {
                None => {
                    proof {
                        lemma_theme_entries_prefix_err(ev, i + 1);
                    }
                    return Err(
                        validation_concat(
                            key.as_str(),
                            " must be a six-digit hex color like #rrggbb",
                        ),
                    );
                },
                Some(n) => {
                    let ghost before = string_pair_views(normalized@);
                    normalized.push((key.clone(), n));
                    assert(string_pair_views(normalized@) =~= before.push((key@, n@)));
                },
            },
        }
        i = i + 1;
    }
    assert(ev.take(entries.len() as int) =~= ev);
    match string_map_json(&normalized) {
        Ok(j) => Ok(j),
        Err(error) => Err(
            validation_concat("custom_theme_colors serialization failed: ", error.as_str()),
        ),
    }
}

proof fn lemma_theme_entries_prefix_err(s: Seq<(Seq<char>, Option<Seq<char>>)>, k: int)
    requires
        0 <= k <= s.len(),
        theme_entries(s.take(k)) is Err,
    ensures
        theme_entries(s) == theme_entries(s.take(k)),
    decreases s.len() - k,
{
    if k < s.len() {
        assert(s.take(k + 1).drop_last() =~= s.take(k));
        lemma_theme_entries_prefix_err(s, k + 1);
    } else {
        assert(s.take(k) =~= s);
    }
}

// ── Single-key updates ──

/// A setting value as the settings file holds it: an integer, a fractional
/// number, a boolean, a string, or anything else.
#[derive(Debug, Clone)]
pub enum SettingValue {
    Integer(i64),
    Float,
    Boolean(bool),
    Text(String),
    Other,
}

/// The keys this library updates.
#[derive(Debug, Clone, Copy, PartialEq, Eq, Structural)]
pub enum SettingKey {
    Theme,
    FontSize,
    CaretStyle,
    CaretPosition,
    CaretAnimation,
    ShowLiveWpm,
    ShowAccuracy,
    ShowKeyboardTrainer,
    ShowHandGuide,
    ShowLayoutWarnings,
    ShowCapslockWarnings,
    SoundEnabled,
    VerboseLogging,
    ZenModeEnabled,
    BlindModeEnabled,
    UiLanguage,
    PracticeLanguage,
    OnboardingCompleted,
    KeyboardLayout,
    VimMode,
    DailyGoalType,
    DailyGoalMinutes,
    PomodoroWorkMin,
    PomodoroBreakMin,
    CustomThemeColors,
}

/// The keys whose values are fractional numbers (sound volume and the speed
/// and accuracy goals); the caller updates those.
pub open spec fn is_fractional_setting(key: Seq<char>) -> bool {
    key == "sound_volume"@ || key == "daily_goal_wpm"@ || key == "daily_goal_accuracy"@
}

/// The key a name stands for; `None` for an unknown name (or a fractional
/// one).
pub open spec fn setting_key_of(key: Seq<char>) -> Option<SettingKey> {
    if key == "theme"@ {
        Some(SettingKey::Theme)
    } else if key == "font_size"@ {
        Some(SettingKey::FontSize)
    } else if key == "caret_style"@ {
        Some(SettingKey::CaretStyle)
    } else if key == "caret_position"@ {
        Some(SettingKey::CaretPosition)
    } else if key == "caret_animation"@ {
        Some(SettingKey::CaretAnimation)
    } else if key == "show_live_wpm"@ {
        Some(SettingKey::ShowLiveWpm)
    } else if key == "show_accuracy"@ {
        Some(SettingKey::ShowAccuracy)
    } else if key == "show_keyboard_trainer"@ {
        Some(SettingKey::ShowKeyboardTrainer)
    } else if key == "show_hand_guide"@ {
        Some(SettingKey::ShowHandGuide)
    } else if key == "show_layout_warnings"@ {
        Some(SettingKey::ShowLayoutWarnings)
    } else if key == "show_capslock_warnings"@ {
        Some(SettingKey::ShowCapslockWarnings)
    } else if key == "sound_enabled"@ {
        Some(SettingKey::SoundEnabled)
    } else if key == "verbose_logging"@ {
        Some(SettingKey::VerboseLogging)
    } else if key == "zen_mode_enabled"@ {
        Some(SettingKey::ZenModeEnabled)
    } else if key == "blind_mode_enabled"@ {
        Some(SettingKey::BlindModeEnabled)
    } else if key == "ui_language"@ {
        Some(SettingKey::UiLanguage)
    } else if key == "practice_language"@ {
        Some(SettingKey::PracticeLanguage)
    } else if key == "onboarding_completed"@ {
        Some(SettingKey::OnboardingCompleted)
    } else if key == "keyboard_layout"@ {
        Some(SettingKey::KeyboardLayout)
    } else if key == "vim_mode"@ {
        Some(SettingKey::VimMode)
    } else if key == "daily_goal_type"@ {
        Some(SettingKey::DailyGoalType)
    } else if key == "daily_goal_minutes"@ {
        Some(SettingKey::DailyGoalMinutes)
    } else if key == "pomodoro_work_min"@ {
        Some(SettingKey::PomodoroWorkMin)
    } else if key == "pomodoro_break_min"@ {
        Some(SettingKey::PomodoroBreakMin)
    } else if key == "custom_theme_colors"@ {
        Some(SettingKey::CustomThemeColors)
    } else {
        None
    }
}

fn parse_setting_key(key: &str) -> (r: Option<SettingKey>)
    ensures
        r == setting_key_of(key@),
{
    if str_equals(key, "theme") {
        Some(SettingKey::Theme)
    } else if str_equals(key, "font_size") {
        Some(SettingKey::FontSize)
    } else if str_equals(key, "caret_style") {
        Some(SettingKey::CaretStyle)
    } else if str_equals(key, "caret_position") {
        Some(SettingKey::CaretPosition)
    } else if str_equals(key, "caret_animation") {
        Some(SettingKey::CaretAnimation)
    } else if str_equals(key, "show_live_wpm") {
        Some(SettingKey::ShowLiveWpm)
    } else if str_equals(key, "show_accuracy") {
        Some(SettingKey::ShowAccuracy)
    } else if str_equals(key, "show_keyboard_trainer") {
        Some(SettingKey::ShowKeyboardTrainer)
    } else if str_equals(key, "show_hand_guide") {
        Some(SettingKey::ShowHandGuide)
    } else if str_equals(key, "show_layout_warnings") {
        Some(SettingKey::ShowLayoutWarnings)
    } else if str_equals(key, "show_capslock_warnings") {
        Some(SettingKey::ShowCapslockWarnings)
    } else if str_equals(key, "sound_enabled") {
        Some(SettingKey::SoundEnabled)
    } else if str_equals(key, "verbose_logging") {
        Some(SettingKey::VerboseLogging)
    } else if str_equals(key, "zen_mode_enabled") {
        Some(SettingKey::ZenModeEnabled)
    } else if str_equals(key, "blind_mode_enabled") {
        Some(SettingKey::BlindModeEnabled)
    } else if str_equals(key, "ui_language") {
        Some(SettingKey::UiLanguage)
    } else if str_equals(key, "practice_language") {
        Some(SettingKey::PracticeLanguage)
    } else if str_equals(key, "onboarding_completed") {
        Some(SettingKey::OnboardingCompleted)
    } else if str_equals(key, "keyboard_layout") {
        Some(SettingKey::KeyboardLayout)
    } else if str_equals(key, "vim_mode") {
        Some(SettingKey::VimMode)
    } else if str_equals(key, "daily_goal_type") {
        Some(SettingKey::DailyGoalType)
    } else if str_equals(key, "daily_goal_minutes") {
        Some(SettingKey::DailyGoalMinutes)
    } else if str_equals(key, "pomodoro_work_min") {
        Some(SettingKey::PomodoroWorkMin)
    } else if str_equals(key, "pomodoro_break_min") {
        Some(SettingKey::PomodoroBreakMin)
    } else if str_equals(key, "custom_theme_colors") {
        Some(SettingKey::CustomThemeColors)
    } else {
        None
    }
}

/// The settings after setting key `k` (named `key`) to `value`, or why the
/// value is refused: a value of the wrong kind or outside what the key
/// accepts.
pub open spec fn applied_key(s: SettingsView, k: SettingKey, key: Seq<char>, value: SettingValue) -> Result<
    SettingsView,
    Seq<char>,
> {
    match k {
        SettingKey::Theme => match value {
            SettingValue::Text(t) => if is_current_theme(t@) {
                Ok(SettingsView { theme: t@, ..s })
            } else {
                Err("Unsupported theme: "@ + t@)
            },
            _ => Err(key + " must be a string"@),
        },
        SettingKey::FontSize => match value {
            SettingValue::Integer(n) => if 12 <= n && n <= 72 {
                Ok(SettingsView { font_size: n, ..s })
            } else {
                Err("font_size must be between 12 and 72"@)
            },
            _ => Err(key + " must be an integer"@),
        },
        SettingKey::CaretStyle => match value {
            SettingValue::Text(t) => if is_caret_style(t@) {
                Ok(SettingsView { caret_style: t@, ..s })
            } else {
                Err("Unsupported caret style: "@ + t@)
            },
            _ => Err(key + " must be a string"@),
        },
        SettingKey::CaretPosition => match value {
            SettingValue::Text(t) => if is_caret_position(t@) {
                Ok(SettingsView { caret_position: t@, ..s })
            } else {
                Err("Unsupported caret position: "@ + t@)
            },
            _ => Err(key + " must be a string"@),
        },
        SettingKey::CaretAnimation => match value {
            SettingValue::Text(t) => if is_caret_animation(t@) {
                Ok(SettingsView { caret_animation: t@, ..s })
            } else {
                Err("Unsupported caret animation: "@ + t@)
            },
            _ => Err(key + " must be a string"@),
        },
        SettingKey::ShowLiveWpm => match value {
            SettingValue::Boolean(b) => Ok(SettingsView { show_live_wpm: b, ..s }),
            _ => Err(key + " must be a boolean"@),
        },
        SettingKey::ShowAccuracy => match value {
            SettingValue::Boolean(b) => Ok(SettingsView { show_accuracy: b, ..s }),
            _ => Err(key + " must be a boolean"@),
        },
        SettingKey::ShowKeyboardTrainer => match value {
            SettingValue::Boolean(b) => Ok(SettingsView { show_keyboard_trainer: b, ..s }),
            _ => Err(key + " must be a boolean"@),
        },
        SettingKey::ShowHandGuide => match value {
            SettingValue::Boolean(b) => Ok(SettingsView { show_hand_guide: b, ..s }),
            _ => Err(key + " must be a boolean"@),
        },
        SettingKey::ShowLayoutWarnings => match value {
            SettingValue::Boolean(b) => Ok(SettingsView { show_layout_warnings: b, ..s }),
            _ => Err(key + " must be a boolean"@),
        },
        SettingKey::ShowCapslockWarnings => match value {
            SettingValue::Boolean(b) => Ok(SettingsView { show_capslock_warnings: b, ..s }),
            _ => Err(key + " must be a boolean"@),
        },
        SettingKey::SoundEnabled => match value {
            SettingValue::Boolean(b) => Ok(SettingsView { sound_enabled: b, ..s }),
            _ => Err(key + " must be a boolean"@),
        },
        SettingKey::VerboseLogging => match value {
            SettingValue::Boolean(b) => Ok(SettingsView { verbose_logging: b, ..s }),
            _ => Err(key + " must be a boolean"@),
        },
        SettingKey::ZenModeEnabled => match value {
            SettingValue::Boolean(b) => Ok(SettingsView { zen_mode_enabled: b, ..s }),
            _ => Err(key + " must be a boolean"@),
        },
        SettingKey::BlindModeEnabled => match value {
            SettingValue::Boolean(b) => Ok(SettingsView { blind_mode_enabled: b, ..s }),
            _ => Err(key + " must be a boolean"@),
        },
        SettingKey::UiLanguage => match value {
            SettingValue::Text(t) => if is_language_code(t@) {
                Ok(SettingsView { ui_language: t@, ..s })
            } else {
                Err("ui_language must be a supported language code"@)
            },
            _ => Err(key + " must be a string"@),
        },
        SettingKey::PracticeLanguage => match value {
            SettingValue::Text(t) => if is_language_code(t@) {
                Ok(SettingsView { practice_language: t@, ..s })
            } else {
                Err("practice_language must be a supported language code"@)
            },
            _ => Err(key + " must be a string"@),
        },
        SettingKey::OnboardingCompleted => match value {
            SettingValue::Boolean(b) => Ok(SettingsView { onboarding_completed: b, ..s }),
            _ => Err(key + " must be a boolean"@),
        },
        SettingKey::KeyboardLayout => match value {
            SettingValue::Text(t) => if is_keyboard_layout(t@) {
                Ok(SettingsView { keyboard_layout: t@, ..s })
            } else {
                Err("keyboard_layout must be one of: qwerty, jcuken, dvorak"@)
            },
            _ => Err(key + " must be a string"@),
        },
        SettingKey::VimMode => match value {
            SettingValue::Boolean(b) => Ok(SettingsView { vim_mode: b, ..s }),
            _ => Err(key + " must be a boolean"@),
        },
        SettingKey::DailyGoalType => match value {
            SettingValue::Text(t) => if is_daily_goal_type(t@) {
                Ok(SettingsView { daily_goal_type: t@, ..s })
            } else {
                Err("Unsupported daily goal type: "@ + t@)
            },
            _ => Err(key + " must be a string"@),
        },
        SettingKey::DailyGoalMinutes => match value {
            SettingValue::Integer(n) => if 0 <= n && n <= 1440 {
                Ok(SettingsView { daily_goal_minutes: n, ..s })
            } else {
                Err("daily_goal_minutes must be between 0 and 1440"@)
            },
            _ => Err(key + " must be an integer"@),
        },
        SettingKey::PomodoroWorkMin => match value {
            SettingValue::Integer(n) => if 1 <= n && n <= 180 {
                Ok(SettingsView { pomodoro_work_min: n, ..s })
            } else {
                Err("pomodoro_work_min must be between 1 and 180"@)
            },
            _ => Err(key + " must be an integer"@),
        },
        SettingKey::PomodoroBreakMin => match value {
            SettingValue::Integer(n) => if 1 <= n && n <= 180 {
                Ok(SettingsView { pomodoro_break_min: n, ..s })
            } else {
                Err("pomodoro_break_min must be between 1 and 180"@)
            },
            _ => Err(key + " must be an integer"@),
        },
        SettingKey::CustomThemeColors => match value {
            SettingValue::Text(t) => match custom_theme_result(t@) {
                Ok(j) => Ok(SettingsView { custom_theme_colors: j, ..s }),
                Err(m) => Err(m),
            },
            _ => Err(key + " must be a string"@),
        },
    }
}

/// The settings after setting `key` to `value`, or why it is refused.
pub open spec fn applied_setting(s: SettingsView, key: Seq<char>, value: SettingValue) -> Result<
    SettingsView,
    Seq<char>,
> {
    match setting_key_of(key) {
        None => Err("Unknown setting key: "@ + key),
        Some(k) => applied_key(s, k, key, value),
    }
}

#[verifier::rlimit(100)]
fn apply_key(settings: &mut AppSettings, k: SettingKey, key: &str, value: &SettingValue) -> (r:
    Result<(), DbError>)
    ensures
        r is Ok ==> applied_key(old(settings)@, k, key@, *value) == Ok::<SettingsView, Seq<char>>(
            final(settings)@,
        ),
        r matches Err(e) ==> e matches DbError::Validation(m) && applied_key(
            old(settings)@,
            k,
            key@,
            *value,
        ) == Err::<SettingsView, Seq<char>>(m@) && final(settings)@ == old(settings)@,
{
    match k {
        SettingKey::Theme => match value {
            SettingValue::Text(t) => if is_current_theme_id(t.as_str()) {
                settings.theme = t.clone();
                Ok(())
            } else {
                Err(validation_concat("Unsupported theme: ", t.as_str()))
            },
            _ => Err(validation_concat(key, " must be a string")),
        },
        SettingKey::FontSize => match value {
            SettingValue::Integer(n) => if 12 <= *n && *n <= 72 {
                settings.font_size = *n;
                Ok(())
            } else {
                Err(validation_msg("font_size must be between 12 and 72"))
            },
            _ => Err(validation_concat(key, " must be an integer")),
        },
        SettingKey::CaretStyle => match value {
            SettingValue::Text(t) => if valid_caret_style(t.as_str()) {
                settings.caret_style = t.clone();
                Ok(())
            } else {
                Err(validation_concat("Unsupported caret style: ", t.as_str()))
            },
            _ => Err(validation_concat(key, " must be a string")),
        },
        SettingKey::CaretPosition => match value {
            SettingValue::Text(t) => if valid_caret_position(t.as_str()) {
                settings.caret_position = t.clone();
                Ok(())
            } else {
                Err(validation_concat("Unsupported caret position: ", t.as_str()))
            },
            _ => Err(validation_concat(key, " must be a string")),
        },
        SettingKey::CaretAnimation => match value {
            SettingValue::Text(t) => if valid_caret_animation(t.as_str()) {
                settings.caret_animation = t.clone();
                Ok(())
            } else {
                Err(validation_concat("Unsupported caret animation: ", t.as_str()))
            },
            _ => Err(validation_concat(key, " must be a string")),
        },
        SettingKey::ShowLiveWpm => match value {
            SettingValue::Boolean(b) => {
                settings.show_live_wpm = *b;
                Ok(())
            },
            _ => Err(validation_concat(key, " must be a boolean")),
        },
        SettingKey::ShowAccuracy => match value {
            SettingValue::Boolean(b) => {
                settings.show_accuracy = *b;
                Ok(())
            },
            _ => Err(validation_concat(key, " must be a boolean")),
        },
        SettingKey::ShowKeyboardTrainer => match value {
            SettingValue::Boolean(b) => {
                settings.show_keyboard_trainer = *b;
                Ok(())
            },
            _ => Err(validation_concat(key, " must be a boolean")),
        },
        SettingKey::ShowHandGuide => match value {
            SettingValue::Boolean(b) => {
                settings.show_hand_guide = *b;
                Ok(())
            },
            _ => Err(validation_concat(key, " must be a boolean")),
        },
        SettingKey::ShowLayoutWarnings => match value {
            SettingValue::Boolean(b) => {
                settings.show_layout_warnings = *b;
                Ok(())
            },
            _ => Err(validation_concat(key, " must be a boolean")),
        },
        SettingKey::ShowCapslockWarnings => match value {
            SettingValue::Boolean(b) => {
                settings.show_capslock_warnings = *b;
                Ok(())
            },
            _ => Err(validation_concat(key, " must be a boolean")),
        },
        SettingKey::SoundEnabled => match value {
            SettingValue::Boolean(b) => {
                settings.sound_enabled = *b;
                Ok(())
            },
            _ => Err(validation_concat(key, " must be a boolean")),
        },
        SettingKey::VerboseLogging => match value {
            SettingValue::Boolean(b) => {
                settings.verbose_logging = *b;
                Ok(())
            },
            _ => Err(validation_concat(key, " must be a boolean")),
        },
        SettingKey::ZenModeEnabled => match value {
            SettingValue::Boolean(b) => {
                settings.zen_mode_enabled = *b;
                Ok(())
            },
            _ => Err(validation_concat(key, " must be a boolean")),
        },
        SettingKey::BlindModeEnabled => match value {
            SettingValue::Boolean(b) => {
                settings.blind_mode_enabled = *b;
                Ok(())
            },
            _ => Err(validation_concat(key, " must be a boolean")),
        },
        SettingKey::UiLanguage => match value {
            SettingValue::Text(t) => if valid_language_code(t.as_str()) {
                settings.ui_language = t.clone();
                Ok(())
            } else {
                Err(validation_msg("ui_language must be a supported language code"))
            },
            _ => Err(validation_concat(key, " must be a string")),
        },
        SettingKey::PracticeLanguage => match value {
            SettingValue::Text(t) => if valid_language_code(t.as_str()) {
                settings.practice_language = t.clone();
                Ok(())
            } else {
                Err(validation_msg("practice_language must be a supported language code"))
            },
            _ => Err(validation_concat(key, " must be a string")),
        },
        SettingKey::OnboardingCompleted => match value {
            SettingValue::Boolean(b) => {
                settings.onboarding_completed = *b;
                Ok(())
            },
            _ => Err(validation_concat(key, " must be a boolean")),
        },
        SettingKey::KeyboardLayout => match value {
            SettingValue::Text(t) => if valid_keyboard_layout(t.as_str()) {
                settings.keyboard_layout = t.clone();
                Ok(())
            } else {
                Err(validation_msg("keyboard_layout must be one of: qwerty, jcuken, dvorak"))
            },
            _ => Err(validation_concat(key, " must be a string")),
        },
        SettingKey::VimMode => match value {
            SettingValue::Boolean(b) => {
                settings.vim_mode = *b;
                Ok(())
            },
            _ => Err(validation_concat(key, " must be a boolean")),
        },
        SettingKey::DailyGoalType => match value {
            SettingValue::Text(t) => if valid_daily_goal_type(t.as_str()) {
                settings.daily_goal_type = t.clone();
                Ok(())
            } else {
                Err(validation_concat("Unsupported daily goal type: ", t.as_str()))
            },
            _ => Err(validation_concat(key, " must be a string")),
        },
        SettingKey::DailyGoalMinutes => match value {
            SettingValue::Integer(n) => if 0 <= *n && *n <= 1440 {
                settings.daily_goal_minutes = *n;
                Ok(())
            } else {
                Err(validation_msg("daily_goal_minutes must be between 0 and 1440"))
            },
            _ => Err(validation_concat(key, " must be an integer")),
        },
        SettingKey::PomodoroWorkMin => match value {
            SettingValue::Integer(n) => if 1 <= *n && *n <= 180 {
                settings.pomodoro_work_min = *n;
                Ok(())
            } else {
                Err(validation_msg("pomodoro_work_min must be between 1 and 180"))
            },
            _ => Err(validation_concat(key, " must be an integer")),
        },
        SettingKey::PomodoroBreakMin => match value {
            SettingValue::Integer(n) => if 1 <= *n && *n <= 180 {
                settings.pomodoro_break_min = *n;
                Ok(())
            } else {
                Err(validation_msg("pomodoro_break_min must be between 1 and 180"))
            },
            _ => Err(validation_concat(key, " must be an integer")),
        },
        SettingKey::CustomThemeColors => match value {
            SettingValue::Text(t) => match validate_custom_theme_json(t.as_str()) {
                Ok(j) => {
                    settings.custom_theme_colors = j;
                    Ok(())
                },
                Err(e) => Err(e),
            },
            _ => Err(validation_concat(key, " must be a string")),
        },
    }
}

/// Sets one key; on refusal the settings are left as they were.
pub fn apply_setting(settings: &mut AppSettings, key: &str, value: &SettingValue) -> (r: Result<
    (),
    DbError,
>)
    requires
        !is_fractional_setting(key@),
    ensures
        r is Ok ==> applied_setting(old(settings)@, key@, *value) == Ok::<SettingsView, Seq<char>>(
            final(settings)@,
        ),
        r matches Err(e) ==> e matches DbError::Validation(m) && applied_setting(
            old(settings)@,
            key@,
            *value,
        ) == Err::<SettingsView, Seq<char>>(m@) && final(settings)@ == old(settings)@,
{
    match parse_setting_key(key) {
        None => Err(validation_concat("Unknown setting key: ", key)),
        Some(k) => apply_key(settings, k, key, value),
    }
}

/// Whether a value is accepted for a key, and the message it is refused
/// with, do not depend on the other settings.
pub proof fn acceptance_ignores_other_settings(
    s: SettingsView,
    t: SettingsView,
    key: Seq<char>,
    value: SettingValue,
)
    ensures
        applied_setting(s, key, value) is Ok <==> applied_setting(t, key, value) is Ok,
        applied_setting(s, key, value) is Err ==> applied_setting(s, key, value)
            == applied_setting(t, key, value),
{
}

// ── Store ──

/// An owned file-system path.
#[verifier::external_type_specification]
#[verifier::external_body]
pub struct ExPathBuf(std::path::PathBuf);

/// A borrowed file-system path.
#[verifier::external_type_specification]
#[verifier::external_body]
pub struct ExPath(std::path::Path);

/// The `Path` that `PathBuf::as_path` borrows from `p`.
pub uninterp spec fn path_of(p: &std::path::PathBuf) -> &std::path::Path;

/// Borrows a `PathBuf` as a `Path` (`PathBuf::as_path`). Paths are opaque
/// to this library, so the contract names the borrowed path.
#[verifier::external_body]
fn path_buf_as_path(p: &std::path::PathBuf) -> (r: &std::path::Path)
    ensures
        r == path_of(p),
{
    p.as_path()
}

/// Where the settings file lives; reading and writing it is done by the
/// caller, with `apply_setting` deciding each update.
pub struct SettingsStore {
    path: std::path::PathBuf,
}

impl SettingsStore {
    /// The path the store was made with.
    pub closed spec fn path_spec(&self) -> std::path::PathBuf {
        self.path
    }

    /// A store for the settings file at `path`.
    pub fn new(path: std::path::PathBuf) -> (s: SettingsStore)
        ensures
            s.path_spec() == path,
    {
        SettingsStore { path }
    }

    /// The settings file's path.
    pub fn path(&self) -> (r: &std::path::Path)
        ensures
            r == path_of(&self.path_spec()),
    {
        path_buf_as_path(&self.path)
    }
}

} // verus!
