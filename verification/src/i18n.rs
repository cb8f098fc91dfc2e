//! Interface languages and the built-in translation catalogs.
use vstd::prelude::*;
use crate::text::{
    chars_of, contains, contains_seq, decimal, has_prefix, int_text, first_match,
    lemma_first_match_from, matches_at, push_all, push_int, push_padded, push_seq, slice_chars, starts_with, str_eq,
    string_of, zero_pad,
};

verus! {

/// Interface language chosen in the settings.
#[derive(Clone, Copy, Debug, PartialEq, Eq, Hash, Structural)]
pub enum LanguagePreference {
    System,
    English,
    SimplifiedChinese,
    Japanese,
    Korean,
    Russian,
    French,
}

impl Default for LanguagePreference {
    fn default() -> (r: Self)
        ensures
            r == LanguagePreference::System,
    {
        LanguagePreference::System
    }
}

/// ASCII lower case of one character.
pub open spec fn ascii_lower(c: char) -> char {
    if 'A' <= c && c <= 'Z' {
        ((c as u32) + 32) as char
    } else {
        c
    }
}

/// `str::to_ascii_lowercase`.
pub open spec fn ascii_lowercase(s: Seq<char>) -> Seq<char> {
    s.map_values(|c: char| ascii_lower(c))
}

/// The language that `System` stands for, given the system locale name;
/// other choices stand for themselves.
pub open spec fn resolve(language: LanguagePreference, system_locale: Seq<char>) -> LanguagePreference {
    if language != LanguagePreference::System {
        language
    } else {
        let l = ascii_lowercase(system_locale);
        if has_prefix(l, "zh"@) {
            LanguagePreference::SimplifiedChinese
        } else if has_prefix(l, "ja"@) {
            LanguagePreference::Japanese
        } else if has_prefix(l, "ko"@) {
            LanguagePreference::Korean
        } else if has_prefix(l, "ru"@) {
            LanguagePreference::Russian
        } else if has_prefix(l, "fr"@) {
            LanguagePreference::French
        } else {
            LanguagePreference::English
        }
    }
}

/// The first two characters of `locale`, lower-cased, are `a` then `b`.
fn locale_starts(locale: &Vec<char>, a: char, b: char, upper_a: char, upper_b: char) -> (r: bool)
    requires
        'a' <= a <= 'z',
        'a' <= b <= 'z',
        upper_a as u32 + 32 == a as u32,
        upper_b as u32 + 32 == b as u32,
    ensures
        r == (locale@.len() >= 2 && ascii_lower(locale@[0]) == a && ascii_lower(locale@[1]) == b),
{
    if locale.len() < 2 {
        return false;
    }
    let c0 = locale[0];
    let c1 = locale[1];
    (c0 == a || c0 == upper_a) && (c1 == b || c1 == upper_b)
}

proof fn lemma_two_char_prefix(l: Seq<char>, s: Seq<char>, lit: Seq<char>, a: char, b: char)
    requires
        l == ascii_lowercase(s),
        lit.len() == 2,
        lit[0] == a,
        lit[1] == b,
    ensures
        has_prefix(l, lit) == (s.len() >= 2 && ascii_lower(s[0]) == a && ascii_lower(s[1]) == b),
{
    if s.len() >= 2 && ascii_lower(s[0]) == a && ascii_lower(s[1]) == b {
        assert(l.subrange(0, 2) =~= lit);
    }
    if has_prefix(l, lit) {
        assert(l.subrange(0, 2)[0] == l[0]);
        assert(l.subrange(0, 2)[1] == l[1]);
    }
}

/// A runtime status message, classified.
#[derive(Clone, Copy, Debug, PartialEq, Eq, Structural)]
pub enum RuntimeStatus {
    Loaded,
    Refreshing,
    Refreshed,
    FavoriteAdded,
    FavoriteRemoved,
    Enabled,
    Disabled,
    MinimizedToTray,
    Downloading,
    DownloadComplete,
    SettingWallpaper,
    WallpaperSet,
    AlreadyLatest,
    DownloadingUpdate,
    UpdateReady,
    ActionRequired,
    Failed,
    Working,
    Done,
}

impl LanguagePreference {
    /// Every choice, in menu order.
    pub fn all() -> (r: Vec<LanguagePreference>)
        ensures
            r@ == seq![
                LanguagePreference::System,
                LanguagePreference::English,
                LanguagePreference::SimplifiedChinese,
                LanguagePreference::Japanese,
                LanguagePreference::Korean,
                LanguagePreference::Russian,
                LanguagePreference::French,
            ],
    {
        let mut v = Vec::new();
        v.push(LanguagePreference::System);
        v.push(LanguagePreference::English);
        v.push(LanguagePreference::SimplifiedChinese);
        v.push(LanguagePreference::Japanese);
        v.push(LanguagePreference::Korean);
        v.push(LanguagePreference::Russian);
        v.push(LanguagePreference::French);
        v
    }

    /// The language this choice stands for: `System` follows the system
    /// locale (Chinese, Japanese, Korean, Russian or French by its
    /// two-letter prefix, English otherwise).
    pub fn resolved(self, system_locale: &str) -> (r: LanguagePreference)
        ensures
            r == resolve(self, system_locale@),
    {
        if self != LanguagePreference::System {
            return self;
        }
        let l = chars_of(system_locale);
        let ghost low = ascii_lowercase(system_locale@);
        proof {
            reveal_strlit("zh");
            reveal_strlit("ja");
            reveal_strlit("ko");
            reveal_strlit("ru");
            reveal_strlit("fr");
            lemma_two_char_prefix(low, l@, "zh"@, 'z', 'h');
            lemma_two_char_prefix(low, l@, "ja"@, 'j', 'a');
            lemma_two_char_prefix(low, l@, "ko"@, 'k', 'o');
            lemma_two_char_prefix(low, l@, "ru"@, 'r', 'u');
            lemma_two_char_prefix(low, l@, "fr"@, 'f', 'r');
        }
        if locale_starts(&l, 'z', 'h', 'Z', 'H') {
            LanguagePreference::SimplifiedChinese
        } else if locale_starts(&l, 'j', 'a', 'J', 'A') {
            LanguagePreference::Japanese
        } else if locale_starts(&l, 'k', 'o', 'K', 'O') {
            LanguagePreference::Korean
        } else if locale_starts(&l, 'r', 'u', 'R', 'U') {
            LanguagePreference::Russian
        } else if locale_starts(&l, 'f', 'r', 'F', 'R') {
            LanguagePreference::French
        } else {
            LanguagePreference::English
        }
    }

    /// Locale name handed to the UI toolkit.
    pub fn gpui_locale(self, system_locale: &str) -> (r: &'static str)
        ensures
            r@ == locale_code(resolve(self, system_locale@))@,
    {
        locale_code_exec(self.resolved(system_locale))
    }

    /// Flag shown next to the language name.
    pub fn flag(self) -> (r: &'static str)
        ensures
            r@ == flag_of(self)@,
    {
        match self {
            LanguagePreference::System => "🌐",
            LanguagePreference::English => "🇺🇸",
            LanguagePreference::SimplifiedChinese => "🇨🇳",
            LanguagePreference::Japanese => "🇯🇵",
            LanguagePreference::Korean => "🇰🇷",
            LanguagePreference::Russian => "🇷🇺",
            LanguagePreference::French => "🇫🇷",
        }
    }

    /// Name of the language in that language.
    pub fn native_name(self) -> (r: &'static str)
        ensures
            r@ == native_name_of(self)@,
    {
        match self {
            LanguagePreference::System => "System",
            LanguagePreference::English => "English",
            LanguagePreference::SimplifiedChinese => "简体中文",
            LanguagePreference::Japanese => "日本語",
            LanguagePreference::Korean => "한국어",
            LanguagePreference::Russian => "Русский",
            LanguagePreference::French => "Français",
        }
    }

    /// The interface text for `key` (an English phrase or a catalog key) in
    /// this language; English, and keys without a translation, give `key`.
    pub fn t(self, system_locale: &str, key: &'static str) -> (r: &'static str)
        ensures
            r@ == translation(resolve(self, system_locale@), key@),
    {
        translate(self.resolved(system_locale), key)
    }

    /// Status text in this language: Chinese status messages are replaced by
    /// the matching canned text, the automatic-source prefix is translated,
    /// and other messages are kept.
    pub fn localize_status(self, system_locale: &str, message: &str) -> (r: String)
        ensures
            r@ == localized_status(resolve(self, system_locale@), message@),
    {
        localize_status_resolved(self.resolved(system_locale), message)
    }

    /// Heading of a year in the archive.
    pub fn year_label(self, system_locale: &str, year: i32) -> (r: String)
        ensures
            r@ == year_label_text(resolve(self, system_locale@), year as int),
    {
        let mut out: Vec<char> = Vec::new();
        match self.resolved(system_locale) {
            LanguagePreference::SimplifiedChinese | LanguagePreference::Japanese => {
                push_int(&mut out, year as i64);
                push_all(&mut out, " 年");
            },
            LanguagePreference::Korean => {
                push_int(&mut out, year as i64);
                push_all(&mut out, "년");
            },
            LanguagePreference::Russian => {
                push_int(&mut out, year as i64);
                push_all(&mut out, " г.");
            },
            _ => {
                push_int(&mut out, year as i64);
            },
        }
        string_of(out.as_slice())
    }

    /// Entry of a month in the archive, with the number of wallpapers.
    pub fn month_count_label(self, system_locale: &str, month: u32, count: usize) -> (r: String)
        ensures
            r@ == month_count_text(resolve(self, system_locale@), month as nat, count as nat),
    {
        let mut out: Vec<char> = Vec::new();
        match self.resolved(system_locale) {
            LanguagePreference::SimplifiedChinese => {
                push_padded(&mut out, month as u64, 2);
                push_all(&mut out, " 月 (");
                push_padded(&mut out, count as u64, 1);
                push_all(&mut out, " 张)");
            },
            LanguagePreference::Japanese => {
                push_padded(&mut out, month as u64, 2);
                push_all(&mut out, " 月 (");
                push_padded(&mut out, count as u64, 1);
                push_all(&mut out, " 枚)");
            },
            LanguagePreference::Korean => {
                push_padded(&mut out, month as u64, 2);
                push_all(&mut out, "월 (");
                push_padded(&mut out, count as u64, 1);
                push_all(&mut out, "장)");
            },
            LanguagePreference::Russian => {
                push_padded(&mut out, month as u64, 2);
                push_all(&mut out, " (");
                push_padded(&mut out, count as u64, 1);
                push_all(&mut out, ")");
            },
            LanguagePreference::French => {
                push_all(&mut out, "Mois ");
                push_padded(&mut out, month as u64, 2);
                push_all(&mut out, " (");
                push_padded(&mut out, count as u64, 1);
                push_all(&mut out, ")");
            },
            _ => {
                push_all(&mut out, "Month ");
                push_padded(&mut out, month as u64, 2);
                push_all(&mut out, " (");
                push_padded(&mut out, count as u64, 1);
                push_all(&mut out, ")");
            },
        }
        string_of(out.as_slice())
    }

    /// Heading of a month.
    pub fn year_month_label(self, system_locale: &str, year: i32, month: u32) -> (r: String)
        ensures
            r@ == year_month_text(resolve(self, system_locale@), year as int, month as nat),
    {
        let mut out: Vec<char> = Vec::new();
        match self.resolved(system_locale) {
            LanguagePreference::SimplifiedChinese | LanguagePreference::Japanese => {
                push_int(&mut out, year as i64);
                push_all(&mut out, "年");
                push_padded(&mut out, month as u64, 2);
                push_all(&mut out, "月");
            },
            LanguagePreference::Korean => {
                push_int(&mut out, year as i64);
                push_all(&mut out, "년 ");
                push_padded(&mut out, month as u64, 2);
                push_all(&mut out, "월");
            },
            LanguagePreference::Russian => {
                push_padded(&mut out, month as u64, 2);
                push_all(&mut out, ".");
                push_int(&mut out, year as i64);
            },
            LanguagePreference::French => {
                push_padded(&mut out, month as u64, 2);
                push_all(&mut out, "/");
                push_int(&mut out, year as i64);
            },
            _ => {
                push_int(&mut out, year as i64);
                push_all(&mut out, "-");
                push_padded(&mut out, month as u64, 2);
            },
        }
        string_of(out.as_slice())
    }
}

pub open spec fn locale_code(language: LanguagePreference) -> &'static str {
    match language {
        LanguagePreference::SimplifiedChinese => "zh-CN",
        LanguagePreference::Japanese => "ja",
        LanguagePreference::Korean => "ko",
        LanguagePreference::Russian => "ru",
        LanguagePreference::French => "fr",
        _ => "en",
    }
}

fn locale_code_exec(language: LanguagePreference) -> (r: &'static str)
    ensures
        r@ == locale_code(language)@,
{
    match language {
        LanguagePreference::SimplifiedChinese => "zh-CN",
        LanguagePreference::Japanese => "ja",
        LanguagePreference::Korean => "ko",
        LanguagePreference::Russian => "ru",
        LanguagePreference::French => "fr",
        _ => "en",
    }
}

pub open spec fn flag_of(language: LanguagePreference) -> &'static str {
    match language {
        LanguagePreference::System => "🌐",
        LanguagePreference::English => "🇺🇸",
        LanguagePreference::SimplifiedChinese => "🇨🇳",
        LanguagePreference::Japanese => "🇯🇵",
        LanguagePreference::Korean => "🇰🇷",
        LanguagePreference::Russian => "🇷🇺",
        LanguagePreference::French => "🇫🇷",
    }
}

pub open spec fn native_name_of(language: LanguagePreference) -> &'static str {
    match language {
        LanguagePreference::System => "System",
        LanguagePreference::English => "English",
        LanguagePreference::SimplifiedChinese => "简体中文",
        LanguagePreference::Japanese => "日本語",
        LanguagePreference::Korean => "한국어",
        LanguagePreference::Russian => "Русский",
        LanguagePreference::French => "Français",
    }
}

pub open spec fn year_label_text(language: LanguagePreference, year: int) -> Seq<char> {
    match language {
        LanguagePreference::SimplifiedChinese | LanguagePreference::Japanese => int_text(year)
            + " 年"@,
        LanguagePreference::Korean => int_text(year) + "년"@,
        LanguagePreference::Russian => int_text(year) + " г."@,
        _ => int_text(year),
    }
}

pub open spec fn month_count_text(language: LanguagePreference, month: nat, count: nat) -> Seq<
    char,
> {
    let m = zero_pad(decimal(month), 2);
    let c = zero_pad(decimal(count), 1);
    match language {
        LanguagePreference::SimplifiedChinese => m + " 月 ("@ + c + " 张)"@,
        LanguagePreference::Japanese => m + " 月 ("@ + c + " 枚)"@,
        LanguagePreference::Korean => m + "월 ("@ + c + "장)"@,
        LanguagePreference::Russian => m + " ("@ + c + ")"@,
        LanguagePreference::French => "Mois "@ + m + " ("@ + c + ")"@,
        _ => "Month "@ + m + " ("@ + c + ")"@,
    }
}

pub open spec fn year_month_text(language: LanguagePreference, year: int, month: nat) -> Seq<char> {
    let m = zero_pad(decimal(month), 2);
    match language {
        LanguagePreference::SimplifiedChinese | LanguagePreference::Japanese => int_text(year)
            + "年"@ + m + "月"@,
        LanguagePreference::Korean => int_text(year) + "년 "@ + m + "월"@,
        LanguagePreference::Russian => m + "."@ + int_text(year),
        LanguagePreference::French => m + "/"@ + int_text(year),
        _ => int_text(year) + "-"@ + m,
    }
}

/// Position of `key` in the translation catalog.
pub open spec fn catalog_index(key: Seq<char>) -> Option<int> {
    if key == "Home"@ {
        Some(0)
    } else if key == "Global resolution"@ {
        Some(1)
    } else if key == "Original"@ {
        Some(2)
    } else if key == "Default"@ {
        Some(3)
    } else if key == "Favorites"@ {
        Some(4)
    } else if key == "Batch download"@ {
        Some(5)
    } else if key == "Downloaded wallpapers"@ {
        Some(6)
    } else if key == "Download center"@ {
        Some(7)
    } else if key == "Navigation"@ {
        Some(8)
    } else if key == "Archive"@ {
        Some(9)
    } else if key == "Settings"@ {
        Some(10)
    } else if key == "Language"@ {
        Some(11)
    } else if key == "Follow system"@ {
        Some(12)
    } else if key == "Wallpaper library"@ {
        Some(13)
    } else if key == "Loading wallpaper list..."@ {
        Some(14)
    } else if key == "Image loading..."@ {
        Some(15)
    } else if key == "Download path"@ {
        Some(16)
    } else if key == "Appearance"@ {
        Some(17)
    } else if key == "Multi-monitor wallpaper"@ {
        Some(18)
    } else if key == "Automatic wallpaper"@ {
        Some(19)
    } else if key == "Maintenance"@ {
        Some(20)
    } else if key == "Close settings"@ {
        Some(21)
    } else if key == "Wallpaper download folder"@ {
        Some(22)
    } else if key == "Open folder"@ {
        Some(23)
    } else if key == "Choose and save"@ {
        Some(24)
    } else if key == "System"@ {
        Some(25)
    } else if key == "Light"@ {
        Some(26)
    } else if key == "Dark"@ {
        Some(27)
    } else if key == "Sync all displays"@ {
        Some(28)
    } else if key == "Refresh"@ {
        Some(29)
    } else if key == "Startup"@ {
        Some(30)
    } else if key == "Run in background / show tray icon"@ {
        Some(31)
    } else if key == "Change wallpaper daily"@ {
        Some(32)
    } else if key == "Exit after automatic wallpaper"@ {
        Some(33)
    } else if key == "Wallpaper source"@ {
        Some(34)
    } else if key == "Latest daily wallpaper"@ {
        Some(35)
    } else if key == "Random from all history"@ {
        Some(36)
    } else if key == "Random from favorites"@ {
        Some(37)
    } else if key == "Execution time"@ {
        Some(38)
    } else if key == "Hour"@ {
        Some(39)
    } else if key == "Minute"@ {
        Some(40)
    } else if key == "Current selection"@ {
        Some(41)
    } else if key == "Change once now"@ {
        Some(42)
    } else if key == "Clear wallpaper cache"@ {
        Some(43)
    } else if key == "Check for updates"@ {
        Some(44)
    } else if key == "About"@ {
        Some(45)
    } else if key == "Back to top"@ {
        Some(46)
    } else if key == "Download"@ {
        Some(47)
    } else if key == "Set as wallpaper"@ {
        Some(48)
    } else if key == "Preview"@ {
        Some(49)
    } else if key == "Cancel favorite"@ {
        Some(50)
    } else if key == "Favorite"@ {
        Some(51)
    } else if key == "No favorite wallpapers yet"@ {
        Some(52)
    } else if key == "No downloaded wallpapers yet"@ {
        Some(53)
    } else if key == "Delete"@ {
        Some(54)
    } else if key == "Delete selected"@ {
        Some(55)
    } else if key == "Select all"@ {
        Some(56)
    } else if key == "Clear selection"@ {
        Some(57)
    } else if key == "Refresh wallpaper list"@ {
        Some(58)
    } else if key == "Update available"@ {
        Some(59)
    } else if key == "View release notes"@ {
        Some(60)
    } else if key == "Later"@ {
        Some(61)
    } else if key == "Update now"@ {
        Some(62)
    } else if key == "Open main window"@ {
        Some(63)
    } else if key == "Run in background"@ {
        Some(64)
    } else if key == "Exit"@ {
        Some(65)
    } else if key == "About subtitle"@ {
        Some(66)
    } else if key == "Version"@ {
        Some(67)
    } else if key == "Copyright"@ {
        Some(68)
    } else if key == "Open source and credits"@ {
        Some(69)
    } else if key == "About data sources"@ {
        Some(70)
    } else if key == "Historical archive"@ {
        Some(71)
    } else if key == "Project home"@ {
        Some(72)
    } else if key == "Download folder hint"@ {
        Some(73)
    } else if key == "Theme hint"@ {
        Some(74)
    } else if key == "No display detected"@ {
        Some(75)
    } else if key == "Display target hint"@ {
        Some(76)
    } else if key == "Auto exit hint"@ {
        Some(77)
    } else if key == "Time selection hint"@ {
        Some(78)
    } else if key == "Automatic wallpaper hint"@ {
        Some(79)
    } else if key == "Windows scheduled wallpaper"@ {
        Some(80)
    } else if key == "Enable periodic task scheduler"@ {
        Some(81)
    } else if key == "Use latest Bing wallpaper for the first run each day"@ {
        Some(82)
    } else if key == "Later wallpaper source"@ {
        Some(83)
    } else if key == "Repeat interval"@ {
        Some(84)
    } else if key == "Periodic interval range hint"@ {
        Some(85)
    } else if key == "Periodic task hint"@ {
        Some(86)
    } else if key == "Startup disabled by periodic task hint"@ {
        Some(87)
    } else if key == "Disable periodic task before enabling startup"@ {
        Some(88)
    } else if key == "Periodic task enabled"@ {
        Some(89)
    } else if key == "Periodic task disabled"@ {
        Some(90)
    } else if key == "Periodic interval updated"@ {
        Some(91)
    } else if key == "Periodic settings saved"@ {
        Some(92)
    } else if key == "Periodic wallpaper source"@ {
        Some(93)
    } else if key == "Failed to enable periodic task"@ {
        Some(94)
    } else if key == "Failed to disable periodic task"@ {
        Some(95)
    } else if key == "Failed to update periodic task"@ {
        Some(96)
    } else if key == "Failed to save periodic settings"@ {
        Some(97)
    } else if key == "Failed to disable old startup"@ {
        Some(98)
    } else if key == "Recent wallpapers"@ {
        Some(99)
    } else if key == "Favorites empty hint"@ {
        Some(100)
    } else if key == "Quick download"@ {
        Some(101)
    } else if key == "All history"@ {
        Some(102)
    } else if key == "Current month"@ {
        Some(103)
    } else if key == "Download by date range"@ {
        Some(104)
    } else if key == "Select a date range"@ {
        Some(105)
    } else if key == "Download date range"@ {
        Some(106)
    } else if key == "Select a month from the sidebar"@ {
        Some(107)
    } else if key == "Exit app title"@ {
        Some(108)
    } else if key == "Exit app prompt"@ {
        Some(109)
    } else if key == "Minimize tray hint"@ {
        Some(110)
    } else if key == "Minimize to tray"@ {
        Some(111)
    } else if key == "Exit application"@ {
        Some(112)
    } else if key == "Download wallpaper tooltip"@ {
        Some(113)
    } else if key == "Set wallpaper tooltip"@ {
        Some(114)
    } else if key == "Refresh list tooltip"@ {
        Some(115)
    } else if key == "Already up to date"@ {
        Some(116)
    } else if key == "Update check failed"@ {
        Some(117)
    } else if key == "New version prompt"@ {
        Some(118)
    } else if key == "Downloading version"@ {
        Some(119)
    } else if key == "Speed"@ {
        Some(120)
    } else if key == "Remaining"@ {
        Some(121)
    } else if key == "Update restart hint"@ {
        Some(122)
    } else if key == "Wallpaper downloading..."@ {
        Some(123)
    } else if key == "Thumbnail generation failed"@ {
        Some(124)
    } else if key == "Cannot read local image"@ {
        Some(125)
    } else if key == "Generating thumbnail..."@ {
        Some(126)
    } else if key == "Available date range"@ {
        Some(127)
    } else if key == "Date range unavailable"@ {
        Some(128)
    } else if key == "Download all history tooltip"@ {
        Some(129)
    } else if key == "Download current month tooltip"@ {
        Some(130)
    } else if key == "Download favorites tooltip"@ {
        Some(131)
    } else if key == "Download range tooltip"@ {
        Some(132)
    } else if key == "Download progress"@ {
        Some(133)
    } else if key == "Skipped"@ {
        Some(134)
    } else if key == "Failed"@ {
        Some(135)
    } else if key == "Select all downloaded tooltip"@ {
        Some(136)
    } else if key == "Delete selected tooltip"@ {
        Some(137)
    } else if key == "Rescan downloads tooltip"@ {
        Some(138)
    } else if key == "Open downloads tooltip"@ {
        Some(139)
    } else if key == "Downloaded empty hint"@ {
        Some(140)
    } else if key == "Select local wallpaper tooltip"@ {
        Some(141)
    } else if key == "Set local wallpaper tooltip"@ {
        Some(142)
    } else if key == "Delete local wallpaper tooltip"@ {
        Some(143)
    } else if key == "Preview image tooltip"@ {
        Some(144)
    } else {
        None
    }
}

fn catalog_index_exec(key: &str) -> (r: Option<usize>)
    ensures
        same_index(r, catalog_index(key@)),
{
    if str_eq(key, "Home") {
        Some(0)
    } else if str_eq(key, "Global resolution") {
        Some(1)
    } else if str_eq(key, "Original") {
        Some(2)
    } else if str_eq(key, "Default") {
        Some(3)
    } else if str_eq(key, "Favorites") {
        Some(4)
    } else if str_eq(key, "Batch download") {
        Some(5)
    } else if str_eq(key, "Downloaded wallpapers") {
        Some(6)
    } else if str_eq(key, "Download center") {
        Some(7)
    } else if str_eq(key, "Navigation") {
        Some(8)
    } else if str_eq(key, "Archive") {
        Some(9)
    } else if str_eq(key, "Settings") {
        Some(10)
    } else if str_eq(key, "Language") {
        Some(11)
    } else if str_eq(key, "Follow system") {
        Some(12)
    } else if str_eq(key, "Wallpaper library") {
        Some(13)
    } else if str_eq(key, "Loading wallpaper list...") {
        Some(14)
    } else if str_eq(key, "Image loading...") {
        Some(15)
    } else if str_eq(key, "Download path") {
        Some(16)
    } else if str_eq(key, "Appearance") {
        Some(17)
    } else if str_eq(key, "Multi-monitor wallpaper") {
        Some(18)
    } else if str_eq(key, "Automatic wallpaper") {
        Some(19)
    } else if str_eq(key, "Maintenance") {
        Some(20)
    } else if str_eq(key, "Close settings") {
        Some(21)
    } else if str_eq(key, "Wallpaper download folder") {
        Some(22)
    } else if str_eq(key, "Open folder") {
        Some(23)
    } else if str_eq(key, "Choose and save") {
        Some(24)
    } else if str_eq(key, "System") {
        Some(25)
    } else if str_eq(key, "Light") {
        Some(26)
    } else if str_eq(key, "Dark") {
        Some(27)
    } else if str_eq(key, "Sync all displays") {
        Some(28)
    } else if str_eq(key, "Refresh") {
        Some(29)
    } else if str_eq(key, "Startup") {
        Some(30)
    } else if str_eq(key, "Run in background / show tray icon") {
        Some(31)
    } else if str_eq(key, "Change wallpaper daily") {
        Some(32)
    } else if str_eq(key, "Exit after automatic wallpaper") {
        Some(33)
    } else if str_eq(key, "Wallpaper source") {
        Some(34)
    } else if str_eq(key, "Latest daily wallpaper") {
        Some(35)
    } else if str_eq(key, "Random from all history") {
        Some(36)
    } else if str_eq(key, "Random from favorites") {
        Some(37)
    } else if str_eq(key, "Execution time") {
        Some(38)
    } else if str_eq(key, "Hour") {
        Some(39)
    } else if str_eq(key, "Minute") {
        Some(40)
    } else if str_eq(key, "Current selection") {
        Some(41)
    } else if str_eq(key, "Change once now") {
        Some(42)
    } else if str_eq(key, "Clear wallpaper cache") {
        Some(43)
    } else if str_eq(key, "Check for updates") {
        Some(44)
    } else if str_eq(key, "About") {
        Some(45)
    } else if str_eq(key, "Back to top") {
        Some(46)
    } else if str_eq(key, "Download") {
        Some(47)
    } else if str_eq(key, "Set as wallpaper") {
        Some(48)
    } else if str_eq(key, "Preview") {
        Some(49)
    } else if str_eq(key, "Cancel favorite") {
        Some(50)
    } else if str_eq(key, "Favorite") {
        Some(51)
    } else if str_eq(key, "No favorite wallpapers yet") {
        Some(52)
    } else if str_eq(key, "No downloaded wallpapers yet") {
        Some(53)
    } else if str_eq(key, "Delete") {
        Some(54)
    } else if str_eq(key, "Delete selected") {
        Some(55)
    } else if str_eq(key, "Select all") {
        Some(56)
    } else if str_eq(key, "Clear selection") {
        Some(57)
    } else if str_eq(key, "Refresh wallpaper list") {
        Some(58)
    } else if str_eq(key, "Update available") {
        Some(59)
    } else if str_eq(key, "View release notes") {
        Some(60)
    } else if str_eq(key, "Later") {
        Some(61)
    } else if str_eq(key, "Update now") {
        Some(62)
    } else if str_eq(key, "Open main window") {
        Some(63)
    } else if str_eq(key, "Run in background") {
        Some(64)
    } else if str_eq(key, "Exit") {
        Some(65)
    } else if str_eq(key, "About subtitle") {
        Some(66)
    } else if str_eq(key, "Version") {
        Some(67)
    } else if str_eq(key, "Copyright") {
        Some(68)
    } else if str_eq(key, "Open source and credits") {
        Some(69)
    } else if str_eq(key, "About data sources") {
        Some(70)
    } else if str_eq(key, "Historical archive") {
        Some(71)
    } else if str_eq(key, "Project home") {
        Some(72)
    } else if str_eq(key, "Download folder hint") {
        Some(73)
    } else if str_eq(key, "Theme hint") {
        Some(74)
    } else if str_eq(key, "No display detected") {
        Some(75)
    } else if str_eq(key, "Display target hint") {
        Some(76)
    } else if str_eq(key, "Auto exit hint") {
        Some(77)
    } else if str_eq(key, "Time selection hint") {
        Some(78)
    } else if str_eq(key, "Automatic wallpaper hint") {
        Some(79)
    } else if str_eq(key, "Windows scheduled wallpaper") {
        Some(80)
    } else if str_eq(key, "Enable periodic task scheduler") {
        Some(81)
    } else if str_eq(key, "Use latest Bing wallpaper for the first run each day") {
        Some(82)
    } else if str_eq(key, "Later wallpaper source") {
        Some(83)
    } else if str_eq(key, "Repeat interval") {
        Some(84)
    } else if str_eq(key, "Periodic interval range hint") {
        Some(85)
    } else if str_eq(key, "Periodic task hint") {
        Some(86)
    } else if str_eq(key, "Startup disabled by periodic task hint") {
        Some(87)
    } else if str_eq(key, "Disable periodic task before enabling startup") {
        Some(88)
    } else if str_eq(key, "Periodic task enabled") {
        Some(89)
    } else if str_eq(key, "Periodic task disabled") {
        Some(90)
    } else if str_eq(key, "Periodic interval updated") {
        Some(91)
    } else if str_eq(key, "Periodic settings saved") {
        Some(92)
    } else if str_eq(key, "Periodic wallpaper source") {
        Some(93)
    } else if str_eq(key, "Failed to enable periodic task") {
        Some(94)
    } else if str_eq(key, "Failed to disable periodic task") {
        Some(95)
    } else if str_eq(key, "Failed to update periodic task") {
        Some(96)
    } else if str_eq(key, "Failed to save periodic settings") {
        Some(97)
    } else if str_eq(key, "Failed to disable old startup") {
        Some(98)
    } else if str_eq(key, "Recent wallpapers") {
        Some(99)
    } else if str_eq(key, "Favorites empty hint") {
        Some(100)
    } else if str_eq(key, "Quick download") {
        Some(101)
    } else if str_eq(key, "All history") {
        Some(102)
    } else if str_eq(key, "Current month") {
        Some(103)
    } else if str_eq(key, "Download by date range") {
        Some(104)
    } else if str_eq(key, "Select a date range") {
        Some(105)
    } else if str_eq(key, "Download date range") {
        Some(106)
    } else if str_eq(key, "Select a month from the sidebar") {
        Some(107)
    } else if str_eq(key, "Exit app title") {
        Some(108)
    } else if str_eq(key, "Exit app prompt") {
        Some(109)
    } else if str_eq(key, "Minimize tray hint") {
        Some(110)
    } else if str_eq(key, "Minimize to tray") {
        Some(111)
    } else if str_eq(key, "Exit application") {
        Some(112)
    } else if str_eq(key, "Download wallpaper tooltip") {
        Some(113)
    } else if str_eq(key, "Set wallpaper tooltip") {
        Some(114)
    } else if str_eq(key, "Refresh list tooltip") {
        Some(115)
    } else if str_eq(key, "Already up to date") {
        Some(116)
    } else if str_eq(key, "Update check failed") {
        Some(117)
    } else if str_eq(key, "New version prompt") {
        Some(118)
    } else if str_eq(key, "Downloading version") {
        Some(119)
    } else if str_eq(key, "Speed") {
        Some(120)
    } else if str_eq(key, "Remaining") {
        Some(121)
    } else if str_eq(key, "Update restart hint") {
        Some(122)
    } else if str_eq(key, "Wallpaper downloading...") {
        Some(123)
    } else if str_eq(key, "Thumbnail generation failed") {
        Some(124)
    } else if str_eq(key, "Cannot read local image") {
        Some(125)
    } else if str_eq(key, "Generating thumbnail...") {
        Some(126)
    } else if str_eq(key, "Available date range") {
        Some(127)
    } else if str_eq(key, "Date range unavailable") {
        Some(128)
    } else if str_eq(key, "Download all history tooltip") {
        Some(129)
    } else if str_eq(key, "Download current month tooltip") {
        Some(130)
    } else if str_eq(key, "Download favorites tooltip") {
        Some(131)
    } else if str_eq(key, "Download range tooltip") {
        Some(132)
    } else if str_eq(key, "Download progress") {
        Some(133)
    } else if str_eq(key, "Skipped") {
        Some(134)
    } else if str_eq(key, "Failed") {
        Some(135)
    } else if str_eq(key, "Select all downloaded tooltip") {
        Some(136)
    } else if str_eq(key, "Delete selected tooltip") {
        Some(137)
    } else if str_eq(key, "Rescan downloads tooltip") {
        Some(138)
    } else if str_eq(key, "Open downloads tooltip") {
        Some(139)
    } else if str_eq(key, "Downloaded empty hint") {
        Some(140)
    } else if str_eq(key, "Select local wallpaper tooltip") {
        Some(141)
    } else if str_eq(key, "Set local wallpaper tooltip") {
        Some(142)
    } else if str_eq(key, "Delete local wallpaper tooltip") {
        Some(143)
    } else if str_eq(key, "Preview image tooltip") {
        Some(144)
    } else {
        None
    }
}

pub open spec fn same_index(r: Option<usize>, o: Option<int>) -> bool {
    match r {
        Some(i) => o == Some(i as int),
        None => o is None,
    }
}

/// Catalog entry `i` in SimplifiedChinese.
pub open spec fn zh_entry(i: int) -> &'static str {
    if i == 0 {
        "主页"
    } else if i == 1 {
        "全局分辨率"
    } else if i == 2 {
        "原图"
    } else if i == 3 {
        "默认"
    } else if i == 4 {
        "我的收藏"
    } else if i == 5 {
        "批量下载"
    } else if i == 6 {
        "已下载的壁纸"
    } else if i == 7 {
        "下载中心"
    } else if i == 8 {
        "导航"
    } else if i == 9 {
        "归档"
    } else if i == 10 {
        "设置"
    } else if i == 11 {
        "语言"
    } else if i == 12 {
        "跟随系统"
    } else if i == 13 {
        "每日 Bing 壁纸图库"
    } else if i == 14 {
        "正在加载壁纸列表..."
    } else if i == 15 {
        "图片加载中..."
    } else if i == 16 {
        "下载路径"
    } else if i == 17 {
        "外观模式"
    } else if i == 18 {
        "多显示器壁纸"
    } else if i == 19 {
        "自动壁纸"
    } else if i == 20 {
        "维护"
    } else if i == 21 {
        "关闭设置"
    } else if i == 22 {
        "壁纸下载保存路径"
    } else if i == 23 {
        "打开目录"
    } else if i == 24 {
        "选择并保存"
    } else if i == 25 {
        "跟随系统"
    } else if i == 26 {
        "白天模式"
    } else if i == 27 {
        "夜间模式"
    } else if i == 28 {
        "同步全部显示器"
    } else if i == 29 {
        "刷新"
    } else if i == 30 {
        "开机自启"
    } else if i == 31 {
        "后台常驻 / 显示系统托盘图标"
    } else if i == 32 {
        "每日自动更换壁纸"
    } else if i == 33 {
        "自动壁纸完成后退出程序"
    } else if i == 34 {
        "壁纸来源"
    } else if i == 35 {
        "每日最新壁纸"
    } else if i == 36 {
        "随机全部历史"
    } else if i == 37 {
        "随机我的收藏"
    } else if i == 38 {
        "执行时间"
    } else if i == 39 {
        "小时"
    } else if i == 40 {
        "分钟"
    } else if i == 41 {
        "当前选择"
    } else if i == 42 {
        "立即按当前方案更换一次"
    } else if i == 43 {
        "清空壁纸缓存"
    } else if i == 44 {
        "检查更新"
    } else if i == 45 {
        "关于软件"
    } else if i == 46 {
        "回到顶部"
    } else if i == 47 {
        "下载"
    } else if i == 48 {
        "设为桌面壁纸"
    } else if i == 49 {
        "预览图片"
    } else if i == 50 {
        "取消收藏"
    } else if i == 51 {
        "收藏"
    } else if i == 52 {
        "还没有收藏壁纸"
    } else if i == 53 {
        "还没有已下载的壁纸"
    } else if i == 54 {
        "删除"
    } else if i == 55 {
        "删除选中项"
    } else if i == 56 {
        "全选"
    } else if i == 57 {
        "清除选择"
    } else if i == 58 {
        "重新获取壁纸列表"
    } else if i == 59 {
        "发现新版本"
    } else if i == 60 {
        "查看更新内容"
    } else if i == 61 {
        "稍后再说"
    } else if i == 62 {
        "立即更新"
    } else if i == 63 {
        "打开主窗口"
    } else if i == 64 {
        "后台常驻"
    } else if i == 65 {
        "退出"
    } else if i == 66 {
        "自动获取、浏览、下载并设置 Bing 每日壁纸"
    } else if i == 67 {
        "当前版本"
    } else if i == 68 {
        "版权信息"
    } else if i == 69 {
        "开源与致谢"
    } else if i == 70 {
        "近期壁纸来自 Bing 官方接口；历史归档来自 zxyongyo/bing-daily-wallpaper，并内置离线快照作为兜底。"
    } else if i == 71 {
        "历史归档项目"
    } else if i == 72 {
        "项目主页"
    } else if i == 73 {
        "留空则使用默认目录；保存后若路径不存在会自动创建。"
    } else if i == 74 {
        "手动选择后不会再被系统主题变化覆盖。"
    } else if i == 75 {
        "未检测到可单独设置的显示器；将使用同步全部显示器。"
    } else if i == 76 {
        "选择后，所有“设为桌面壁纸”操作都会按此目标生效。"
    } else if i == 77 {
        "仅对每日自动执行生效；手动“立即更换一次”不会自动退出。"
    } else if i == 78 {
        "像闹钟一样分别选择小时和分钟。"
    } else if i == 79 {
        "每日最新会下载当天图片；使用随机收藏前请先添加收藏。"
    } else if i == 80 {
        "Windows 计划任务壁纸"
    } else if i == 81 {
        "启用登录及周期自动换壁纸"
    } else if i == 82 {
        "每天首次执行时使用 Bing 最新壁纸"
    } else if i == 83 {
        "当天后续壁纸来源"
    } else if i == 84 {
        "重复间隔"
    } else if i == 85 {
        "范围为 1 分钟至 23 小时 59 分钟；00:00 会自动调整为 00:01。"
    } else if i == 86 {
        "启用后会在当前用户登录时执行，并按所选间隔重复；错过的任务会在电脑恢复可用后补执行一次，但不会唤醒电脑。每次换完壁纸即退出；收藏为空时自动回退到随机历史壁纸。启用此功能会关闭旧的开机自启。"
    } else if i == 87 {
        "启用计划任务后，旧的开机自启会被关闭且不可同时开启。"
    } else if i == 88 {
        "请先关闭周期计划任务，再开启旧的开机自启。"
    } else if i == 89 {
        "已启用 Windows 周期壁纸任务"
    } else if i == 90 {
        "已关闭 Windows 周期壁纸任务"
    } else if i == 91 {
        "周期任务间隔已更新"
    } else if i == 92 {
        "周期壁纸设置已保存"
    } else if i == 93 {
        "周期壁纸来源"
    } else if i == 94 {
        "启用 Windows 周期壁纸任务失败"
    } else if i == 95 {
        "关闭 Windows 周期壁纸任务失败"
    } else if i == 96 {
        "更新 Windows 周期壁纸任务失败"
    } else if i == 97 {
        "保存周期壁纸设置失败"
    } else if i == 98 {
        "关闭旧的开机自启失败"
    } else if i == 99 {
        "最近壁纸"
    } else if i == 100 {
        "在首页或归档中点击 ❤ 即可收藏喜欢的壁纸。"
    } else if i == 101 {
        "快速下载"
    } else if i == 102 {
        "全部历史"
    } else if i == 103 {
        "当前月份"
    } else if i == 104 {
        "按日期范围下载"
    } else if i == 105 {
        "请选择日期范围"
    } else if i == 106 {
        "下载日期范围"
    } else if i == 107 {
        "请在左侧选择月份"
    } else if i == 108 {
        "退出必应每日壁纸库？"
    } else if i == 109 {
        "后台常驻当前未开启。你想直接退出程序，还是仅最小化到系统托盘继续后台运行？"
    } else if i == 110 {
        "选择“最小化到托盘”不会自动开启开机自启；如需开机后台运行，请在设置里开启开机自启。"
    } else if i == 111 {
        "最小化到托盘"
    } else if i == 112 {
        "退出程序"
    } else if i == 113 {
        "下载当前高清壁纸到本地目录"
    } else if i == 114 {
        "自动下载并按当前显示器设置应用为桌面壁纸"
    } else if i == 115 {
        "重新从远程数据源获取壁纸列表；网络不可用时会继续使用内置列表"
    } else if i == 116 {
        "当前已是最新版本"
    } else if i == 117 {
        "检查更新失败"
    } else if i == 118 {
        "发现新版本 v{version}（当前 v{current}），是否立即下载并更新？"
    } else if i == 119 {
        "正在下载新版本 v{version}"
    } else if i == 120 {
        "速度"
    } else if i == 121 {
        "剩余"
    } else if i == 122 {
        "下载完成后应用会自动重启完成更新，请勿关闭。"
    } else if i == 123 {
        "壁纸下载中..."
    } else if i == 124 {
        "缩略图生成失败，请点击刷新重试"
    } else if i == 125 {
        "无法读取本地图片"
    } else if i == 126 {
        "正在生成缩略图..."
    } else if i == 127 {
        "可选范围：{start} 至 {end}；超出范围的日期会自动禁用。"
    } else if i == 128 {
        "壁纸列表加载完成后才能选择日期范围。"
    } else if i == 129 {
        "下载当前列表中的全部历史壁纸"
    } else if i == 130 {
        "下载左侧当前选中月份的壁纸"
    } else if i == 131 {
        "下载我的收藏中的全部壁纸"
    } else if i == 132 {
        "下载日历中选中的日期范围壁纸"
    } else if i == 133 {
        "下载进度"
    } else if i == 134 {
        "跳过"
    } else if i == 135 {
        "失败"
    } else if i == 136 {
        "全选或取消全选当前下载目录中的壁纸"
    } else if i == 137 {
        "删除当前勾选的本地壁纸文件"
    } else if i == 138 {
        "重新扫描下载目录"
    } else if i == 139 {
        "在资源管理器中打开当前壁纸下载目录"
    } else if i == 140 {
        "在首页、归档或批量下载中下载壁纸后会显示在这里"
    } else if i == 141 {
        "选择这张本地壁纸用于批量删除"
    } else if i == 142 {
        "将这张本地图片设置为桌面壁纸"
    } else if i == 143 {
        "删除这张本地壁纸文件"
    } else {
        "打开高清大图预览"
    }
}

fn zh_entry_exec(i: usize) -> (r: &'static str)
    requires
        i < 145,
    ensures
        r@ == zh_entry(i as int)@,
{
    match i {
        0 => "主页",
        1 => "全局分辨率",
        2 => "原图",
        3 => "默认",
        4 => "我的收藏",
        5 => "批量下载",
        6 => "已下载的壁纸",
        7 => "下载中心",
        8 => "导航",
        9 => "归档",
        10 => "设置",
        11 => "语言",
        12 => "跟随系统",
        13 => "每日 Bing 壁纸图库",
        14 => "正在加载壁纸列表...",
        15 => "图片加载中...",
        16 => "下载路径",
        17 => "外观模式",
        18 => "多显示器壁纸",
        19 => "自动壁纸",
        20 => "维护",
        21 => "关闭设置",
        22 => "壁纸下载保存路径",
        23 => "打开目录",
        24 => "选择并保存",
        25 => "跟随系统",
        26 => "白天模式",
        27 => "夜间模式",
        28 => "同步全部显示器",
        29 => "刷新",
        30 => "开机自启",
        31 => "后台常驻 / 显示系统托盘图标",
        32 => "每日自动更换壁纸",
        33 => "自动壁纸完成后退出程序",
        34 => "壁纸来源",
        35 => "每日最新壁纸",
        36 => "随机全部历史",
        37 => "随机我的收藏",
        38 => "执行时间",
        39 => "小时",
        40 => "分钟",
        41 => "当前选择",
        42 => "立即按当前方案更换一次",
        43 => "清空壁纸缓存",
        44 => "检查更新",
        45 => "关于软件",
        46 => "回到顶部",
        47 => "下载",
        48 => "设为桌面壁纸",
        49 => "预览图片",
        50 => "取消收藏",
        51 => "收藏",
        52 => "还没有收藏壁纸",
        53 => "还没有已下载的壁纸",
        54 => "删除",
        55 => "删除选中项",
        56 => "全选",
        57 => "清除选择",
        58 => "重新获取壁纸列表",
        59 => "发现新版本",
        60 => "查看更新内容",
        61 => "稍后再说",
        62 => "立即更新",
        63 => "打开主窗口",
        64 => "后台常驻",
        65 => "退出",
        66 => "自动获取、浏览、下载并设置 Bing 每日壁纸",
        67 => "当前版本",
        68 => "版权信息",
        69 => "开源与致谢",
        70 => "近期壁纸来自 Bing 官方接口；历史归档来自 zxyongyo/bing-daily-wallpaper，并内置离线快照作为兜底。",
        71 => "历史归档项目",
        72 => "项目主页",
        73 => "留空则使用默认目录；保存后若路径不存在会自动创建。",
        74 => "手动选择后不会再被系统主题变化覆盖。",
        75 => "未检测到可单独设置的显示器；将使用同步全部显示器。",
        76 => "选择后，所有“设为桌面壁纸”操作都会按此目标生效。",
        77 => "仅对每日自动执行生效；手动“立即更换一次”不会自动退出。",
        78 => "像闹钟一样分别选择小时和分钟。",
        79 => "每日最新会下载当天图片；使用随机收藏前请先添加收藏。",
        80 => "Windows 计划任务壁纸",
        81 => "启用登录及周期自动换壁纸",
        82 => "每天首次执行时使用 Bing 最新壁纸",
        83 => "当天后续壁纸来源",
        84 => "重复间隔",
        85 => "范围为 1 分钟至 23 小时 59 分钟；00:00 会自动调整为 00:01。",
        86 => "启用后会在当前用户登录时执行，并按所选间隔重复；错过的任务会在电脑恢复可用后补执行一次，但不会唤醒电脑。每次换完壁纸即退出；收藏为空时自动回退到随机历史壁纸。启用此功能会关闭旧的开机自启。",
        87 => "启用计划任务后，旧的开机自启会被关闭且不可同时开启。",
        88 => "请先关闭周期计划任务，再开启旧的开机自启。",
        89 => "已启用 Windows 周期壁纸任务",
        90 => "已关闭 Windows 周期壁纸任务",
        91 => "周期任务间隔已更新",
        92 => "周期壁纸设置已保存",
        93 => "周期壁纸来源",
        94 => "启用 Windows 周期壁纸任务失败",
        95 => "关闭 Windows 周期壁纸任务失败",
        96 => "更新 Windows 周期壁纸任务失败",
        97 => "保存周期壁纸设置失败",
        98 => "关闭旧的开机自启失败",
        99 => "最近壁纸",
        100 => "在首页或归档中点击 ❤ 即可收藏喜欢的壁纸。",
        101 => "快速下载",
        102 => "全部历史",
        103 => "当前月份",
        104 => "按日期范围下载",
        105 => "请选择日期范围",
        106 => "下载日期范围",
        107 => "请在左侧选择月份",
        108 => "退出必应每日壁纸库？",
        109 => "后台常驻当前未开启。你想直接退出程序，还是仅最小化到系统托盘继续后台运行？",
        110 => "选择“最小化到托盘”不会自动开启开机自启；如需开机后台运行，请在设置里开启开机自启。",
        111 => "最小化到托盘",
        112 => "退出程序",
        113 => "下载当前高清壁纸到本地目录",
        114 => "自动下载并按当前显示器设置应用为桌面壁纸",
        115 => "重新从远程数据源获取壁纸列表；网络不可用时会继续使用内置列表",
        116 => "当前已是最新版本",
        117 => "检查更新失败",
        118 => "发现新版本 v{version}（当前 v{current}），是否立即下载并更新？",
        119 => "正在下载新版本 v{version}",
        120 => "速度",
        121 => "剩余",
        122 => "下载完成后应用会自动重启完成更新，请勿关闭。",
        123 => "壁纸下载中...",
        124 => "缩略图生成失败，请点击刷新重试",
        125 => "无法读取本地图片",
        126 => "正在生成缩略图...",
        127 => "可选范围：{start} 至 {end}；超出范围的日期会自动禁用。",
        128 => "壁纸列表加载完成后才能选择日期范围。",
        129 => "下载当前列表中的全部历史壁纸",
        130 => "下载左侧当前选中月份的壁纸",
        131 => "下载我的收藏中的全部壁纸",
        132 => "下载日历中选中的日期范围壁纸",
        133 => "下载进度",
        134 => "跳过",
        135 => "失败",
        136 => "全选或取消全选当前下载目录中的壁纸",
        137 => "删除当前勾选的本地壁纸文件",
        138 => "重新扫描下载目录",
        139 => "在资源管理器中打开当前壁纸下载目录",
        140 => "在首页、归档或批量下载中下载壁纸后会显示在这里",
        141 => "选择这张本地壁纸用于批量删除",
        142 => "将这张本地图片设置为桌面壁纸",
        143 => "删除这张本地壁纸文件",
        _ => "打开高清大图预览",
    }
}

/// Catalog entry `i` in Japanese.
pub open spec fn ja_entry(i: int) -> &'static str {
    if i == 0 {
        "ホーム"
    } else if i == 1 {
        "全体の解像度"
    } else if i == 2 {
        "オリジナル"
    } else if i == 3 {
        "既定"
    } else if i == 4 {
        "お気に入り"
    } else if i == 5 {
        "一括ダウンロード"
    } else if i == 6 {
        "ダウンロード済み"
    } else if i == 7 {
        "ダウンロードセンター"
    } else if i == 8 {
        "ナビゲーション"
    } else if i == 9 {
        "アーカイブ"
    } else if i == 10 {
        "設定"
    } else if i == 11 {
        "言語"
    } else if i == 12 {
        "システムに従う"
    } else if i == 13 {
        "Bing デイリー壁紙ライブラリ"
    } else if i == 14 {
        "壁紙リストを読み込んでいます..."
    } else if i == 15 {
        "画像を読み込んでいます..."
    } else if i == 16 {
        "保存先"
    } else if i == 17 {
        "外観"
    } else if i == 18 {
        "マルチモニター"
    } else if i == 19 {
        "自動壁紙"
    } else if i == 20 {
        "メンテナンス"
    } else if i == 21 {
        "設定を閉じる"
    } else if i == 22 {
        "壁紙の保存先"
    } else if i == 23 {
        "フォルダーを開く"
    } else if i == 24 {
        "選択して保存"
    } else if i == 25 {
        "システム"
    } else if i == 26 {
        "ライト"
    } else if i == 27 {
        "ダーク"
    } else if i == 28 {
        "すべてのディスプレイに同期"
    } else if i == 29 {
        "更新"
    } else if i == 30 {
        "自動起動"
    } else if i == 31 {
        "バックグラウンド実行 / トレイアイコン"
    } else if i == 32 {
        "毎日壁紙を変更"
    } else if i == 33 {
        "自動変更後に終了"
    } else if i == 34 {
        "壁紙の取得元"
    } else if i == 35 {
        "最新の壁紙"
    } else if i == 36 {
        "履歴からランダム"
    } else if i == 37 {
        "お気に入りからランダム"
    } else if i == 38 {
        "実行時刻"
    } else if i == 39 {
        "時"
    } else if i == 40 {
        "分"
    } else if i == 41 {
        "現在の選択"
    } else if i == 42 {
        "今すぐ一度変更"
    } else if i == 43 {
        "壁紙キャッシュを消去"
    } else if i == 44 {
        "更新を確認"
    } else if i == 45 {
        "このアプリについて"
    } else if i == 46 {
        "トップへ"
    } else if i == 47 {
        "ダウンロード"
    } else if i == 48 {
        "壁紙に設定"
    } else if i == 49 {
        "プレビュー"
    } else if i == 50 {
        "お気に入り解除"
    } else if i == 51 {
        "お気に入り"
    } else if i == 52 {
        "お気に入りはまだありません"
    } else if i == 53 {
        "ダウンロード済みの壁紙はありません"
    } else if i == 54 {
        "削除"
    } else if i == 55 {
        "選択項目を削除"
    } else if i == 56 {
        "すべて選択"
    } else if i == 57 {
        "選択解除"
    } else if i == 58 {
        "壁紙リストを更新"
    } else if i == 59 {
        "新しいバージョンがあります"
    } else if i == 60 {
        "リリースノートを表示"
    } else if i == 61 {
        "後で"
    } else if i == 62 {
        "今すぐ更新"
    } else if i == 63 {
        "メインウィンドウを開く"
    } else if i == 64 {
        "バックグラウンド実行"
    } else if i == 65 {
        "終了"
    } else if i == 66 {
        "Bing のデイリー壁紙を取得・閲覧・ダウンロード・設定"
    } else if i == 67 {
        "バージョン"
    } else if i == 68 {
        "著作権情報"
    } else if i == 69 {
        "オープンソースとクレジット"
    } else if i == 70 {
        "最近の壁紙は Bing 公式 API、履歴は zxyongyo/bing-daily-wallpaper から取得し、オフラインスナップショットも内蔵しています。"
    } else if i == 71 {
        "履歴アーカイブ"
    } else if i == 72 {
        "プロジェクトホーム"
    } else if i == 73 {
        "空欄の場合は既定のフォルダーを使用し、存在しない場合は保存時に作成します。"
    } else if i == 74 {
        "手動で選択すると、システムテーマの変更では上書きされません。"
    } else if i == 75 {
        "個別に設定できるディスプレイが見つかりません。すべてのディスプレイに同期します。"
    } else if i == 76 {
        "以後のすべての「壁紙に設定」操作にこの対象が使用されます。"
    } else if i == 77 {
        "毎日の自動実行にのみ適用されます。手動実行では終了しません。"
    } else if i == 78 {
        "時と分を個別に選択してください。"
    } else if i == 79 {
        "最新を選ぶと当日の画像を取得します。お気に入りから選ぶ前に壁紙を登録してください。"
    } else if i == 80 {
        "Windows タスク スケジューラ壁紙"
    } else if i == 81 {
        "ログオン時と一定間隔で壁紙を変更する"
    } else if i == 82 {
        "毎日の初回は最新の Bing 壁紙を使用する"
    } else if i == 83 {
        "同日の2回目以降の壁紙ソース"
    } else if i == 84 {
        "繰り返し間隔"
    } else if i == 85 {
        "1分～23時間59分。00:00 は自動的に 00:01 になります。"
    } else if i == 86 {
        "現在のユーザーのログオン時と指定間隔で実行します。実行できなかった場合は、PCが利用可能になった時に1回実行しますが、スリープ解除はしません。壁紙変更後は毎回終了し、お気に入りが空なら履歴からランダムに選びます。有効にすると従来の自動起動は無効になります。"
    } else if i == 87 {
        "定期タスクの有効中は従来の自動起動を同時に使用できません。"
    } else if i == 88 {
        "先に定期タスクを無効にしてから自動起動を有効にしてください。"
    } else if i == 89 {
        "Windows 定期壁紙タスクを有効にしました"
    } else if i == 90 {
        "Windows 定期壁紙タスクを無効にしました"
    } else if i == 91 {
        "定期タスクの間隔を更新しました"
    } else if i == 92 {
        "定期壁紙の設定を保存しました"
    } else if i == 93 {
        "定期壁紙のソース"
    } else if i == 94 {
        "Windows 定期壁紙タスクを有効にできませんでした"
    } else if i == 95 {
        "Windows 定期壁紙タスクを無効にできませんでした"
    } else if i == 96 {
        "Windows 定期壁紙タスクを更新できませんでした"
    } else if i == 97 {
        "定期壁紙の設定を保存できませんでした"
    } else if i == 98 {
        "従来の自動起動を無効にできませんでした"
    } else if i == 99 {
        "最近の壁紙"
    } else if i == 100 {
        "ホームまたはアーカイブで ❤ を押すと壁紙をお気に入りに追加できます。"
    } else if i == 101 {
        "クイックダウンロード"
    } else if i == 102 {
        "すべての履歴"
    } else if i == 103 {
        "今月"
    } else if i == 104 {
        "期間を指定してダウンロード"
    } else if i == 105 {
        "期間を選択してください"
    } else if i == 106 {
        "選択期間をダウンロード"
    } else if i == 107 {
        "左側で月を選択してください"
    } else if i == 108 {
        "Bing 壁紙ライブラリを終了しますか？"
    } else if i == 109 {
        "バックグラウンド実行は現在無効です。アプリを終了しますか、それともシステムトレイに最小化しますか？"
    } else if i == 110 {
        "トレイへの最小化では自動起動は有効になりません。必要な場合は設定で自動起動を有効にしてください。"
    } else if i == 111 {
        "トレイに最小化"
    } else if i == 112 {
        "アプリを終了"
    } else if i == 113 {
        "現在の高解像度壁紙を保存します"
    } else if i == 114 {
        "自動的にダウンロードし、現在のディスプレイ設定に適用します"
    } else if i == 115 {
        "リモートデータから壁紙リストを更新します。接続できない場合は内蔵リストを使用します"
    } else if i == 116 {
        "最新バージョンです"
    } else if i == 117 {
        "更新の確認に失敗しました"
    } else if i == 118 {
        "新しいバージョン v{version}（現在 v{current}）があります。今すぐ更新しますか？"
    } else if i == 119 {
        "バージョン v{version} をダウンロード中"
    } else if i == 120 {
        "速度"
    } else if i == 121 {
        "残り"
    } else if i == 122 {
        "ダウンロード後に自動的に再起動して更新します。アプリを閉じないでください。"
    } else if i == 123 {
        "壁紙をダウンロードしています..."
    } else if i == 124 {
        "サムネイルの作成に失敗しました。更新して再試行してください"
    } else if i == 125 {
        "ローカル画像を読み込めません"
    } else if i == 126 {
        "サムネイルを作成しています..."
    } else if i == 127 {
        "選択可能期間: {start} ～ {end}。範囲外の日付は無効です。"
    } else if i == 128 {
        "壁紙リストの読み込み後に期間を選択できます。"
    } else if i == 129 {
        "履歴内のすべての壁紙をダウンロード"
    } else if i == 130 {
        "左側で選択した月の壁紙をダウンロード"
    } else if i == 131 {
        "お気に入りの壁紙をすべてダウンロード"
    } else if i == 132 {
        "カレンダーで選択した期間をダウンロード"
    } else if i == 133 {
        "ダウンロード状況"
    } else if i == 134 {
        "スキップ"
    } else if i == 135 {
        "失敗"
    } else if i == 136 {
        "現在のフォルダー内の壁紙をすべて選択または解除"
    } else if i == 137 {
        "選択したローカル壁紙を削除"
    } else if i == 138 {
        "ダウンロードフォルダーを再読み込み"
    } else if i == 139 {
        "ダウンロードフォルダーをエクスプローラーで開く"
    } else if i == 140 {
        "ホーム、アーカイブ、一括ダウンロードから保存した壁紙がここに表示されます"
    } else if i == 141 {
        "一括削除するローカル壁紙を選択"
    } else if i == 142 {
        "このローカル画像を壁紙に設定"
    } else if i == 143 {
        "このローカル壁紙ファイルを削除"
    } else {
        "高解像度画像をプレビュー"
    }
}

fn ja_entry_exec(i: usize) -> (r: &'static str)
    requires
        i < 145,
    ensures
        r@ == ja_entry(i as int)@,
{
    match i {
        0 => "ホーム",
        1 => "全体の解像度",
        2 => "オリジナル",
        3 => "既定",
        4 => "お気に入り",
        5 => "一括ダウンロード",
        6 => "ダウンロード済み",
        7 => "ダウンロードセンター",
        8 => "ナビゲーション",
        9 => "アーカイブ",
        10 => "設定",
        11 => "言語",
        12 => "システムに従う",
        13 => "Bing デイリー壁紙ライブラリ",
        14 => "壁紙リストを読み込んでいます...",
        15 => "画像を読み込んでいます...",
        16 => "保存先",
        17 => "外観",
        18 => "マルチモニター",
        19 => "自動壁紙",
        20 => "メンテナンス",
        21 => "設定を閉じる",
        22 => "壁紙の保存先",
        23 => "フォルダーを開く",
        24 => "選択して保存",
        25 => "システム",
        26 => "ライト",
        27 => "ダーク",
        28 => "すべてのディスプレイに同期",
        29 => "更新",
        30 => "自動起動",
        31 => "バックグラウンド実行 / トレイアイコン",
        32 => "毎日壁紙を変更",
        33 => "自動変更後に終了",
        34 => "壁紙の取得元",
        35 => "最新の壁紙",
        36 => "履歴からランダム",
        37 => "お気に入りからランダム",
        38 => "実行時刻",
        39 => "時",
        40 => "分",
        41 => "現在の選択",
        42 => "今すぐ一度変更",
        43 => "壁紙キャッシュを消去",
        44 => "更新を確認",
        45 => "このアプリについて",
        46 => "トップへ",
        47 => "ダウンロード",
        48 => "壁紙に設定",
        49 => "プレビュー",
        50 => "お気に入り解除",
        51 => "お気に入り",
        52 => "お気に入りはまだありません",
        53 => "ダウンロード済みの壁紙はありません",
        54 => "削除",
        55 => "選択項目を削除",
        56 => "すべて選択",
        57 => "選択解除",
        58 => "壁紙リストを更新",
        59 => "新しいバージョンがあります",
        60 => "リリースノートを表示",
        61 => "後で",
        62 => "今すぐ更新",
        63 => "メインウィンドウを開く",
        64 => "バックグラウンド実行",
        65 => "終了",
        66 => "Bing のデイリー壁紙を取得・閲覧・ダウンロード・設定",
        67 => "バージョン",
        68 => "著作権情報",
        69 => "オープンソースとクレジット",
        70 => "最近の壁紙は Bing 公式 API、履歴は zxyongyo/bing-daily-wallpaper から取得し、オフラインスナップショットも内蔵しています。",
        71 => "履歴アーカイブ",
        72 => "プロジェクトホーム",
        73 => "空欄の場合は既定のフォルダーを使用し、存在しない場合は保存時に作成します。",
        74 => "手動で選択すると、システムテーマの変更では上書きされません。",
        75 => "個別に設定できるディスプレイが見つかりません。すべてのディスプレイに同期します。",
        76 => "以後のすべての「壁紙に設定」操作にこの対象が使用されます。",
        77 => "毎日の自動実行にのみ適用されます。手動実行では終了しません。",
        78 => "時と分を個別に選択してください。",
        79 => "最新を選ぶと当日の画像を取得します。お気に入りから選ぶ前に壁紙を登録してください。",
        80 => "Windows タスク スケジューラ壁紙",
        81 => "ログオン時と一定間隔で壁紙を変更する",
        82 => "毎日の初回は最新の Bing 壁紙を使用する",
        83 => "同日の2回目以降の壁紙ソース",
        84 => "繰り返し間隔",
        85 => "1分～23時間59分。00:00 は自動的に 00:01 になります。",
        86 => "現在のユーザーのログオン時と指定間隔で実行します。実行できなかった場合は、PCが利用可能になった時に1回実行しますが、スリープ解除はしません。壁紙変更後は毎回終了し、お気に入りが空なら履歴からランダムに選びます。有効にすると従来の自動起動は無効になります。",
        87 => "定期タスクの有効中は従来の自動起動を同時に使用できません。",
        88 => "先に定期タスクを無効にしてから自動起動を有効にしてください。",
        89 => "Windows 定期壁紙タスクを有効にしました",
        90 => "Windows 定期壁紙タスクを無効にしました",
        91 => "定期タスクの間隔を更新しました",
        92 => "定期壁紙の設定を保存しました",
        93 => "定期壁紙のソース",
        94 => "Windows 定期壁紙タスクを有効にできませんでした",
        95 => "Windows 定期壁紙タスクを無効にできませんでした",
        96 => "Windows 定期壁紙タスクを更新できませんでした",
        97 => "定期壁紙の設定を保存できませんでした",
        98 => "従来の自動起動を無効にできませんでした",
        99 => "最近の壁紙",
        100 => "ホームまたはアーカイブで ❤ を押すと壁紙をお気に入りに追加できます。",
        101 => "クイックダウンロード",
        102 => "すべての履歴",
        103 => "今月",
        104 => "期間を指定してダウンロード",
        105 => "期間を選択してください",
        106 => "選択期間をダウンロード",
        107 => "左側で月を選択してください",
        108 => "Bing 壁紙ライブラリを終了しますか？",
        109 => "バックグラウンド実行は現在無効です。アプリを終了しますか、それともシステムトレイに最小化しますか？",
        110 => "トレイへの最小化では自動起動は有効になりません。必要な場合は設定で自動起動を有効にしてください。",
        111 => "トレイに最小化",
        112 => "アプリを終了",
        113 => "現在の高解像度壁紙を保存します",
        114 => "自動的にダウンロードし、現在のディスプレイ設定に適用します",
        115 => "リモートデータから壁紙リストを更新します。接続できない場合は内蔵リストを使用します",
        116 => "最新バージョンです",
        117 => "更新の確認に失敗しました",
        118 => "新しいバージョン v{version}（現在 v{current}）があります。今すぐ更新しますか？",
        119 => "バージョン v{version} をダウンロード中",
        120 => "速度",
        121 => "残り",
        122 => "ダウンロード後に自動的に再起動して更新します。アプリを閉じないでください。",
        123 => "壁紙をダウンロードしています...",
        124 => "サムネイルの作成に失敗しました。更新して再試行してください",
        125 => "ローカル画像を読み込めません",
        126 => "サムネイルを作成しています...",
        127 => "選択可能期間: {start} ～ {end}。範囲外の日付は無効です。",
        128 => "壁紙リストの読み込み後に期間を選択できます。",
        129 => "履歴内のすべての壁紙をダウンロード",
        130 => "左側で選択した月の壁紙をダウンロード",
        131 => "お気に入りの壁紙をすべてダウンロード",
        132 => "カレンダーで選択した期間をダウンロード",
        133 => "ダウンロード状況",
        134 => "スキップ",
        135 => "失敗",
        136 => "現在のフォルダー内の壁紙をすべて選択または解除",
        137 => "選択したローカル壁紙を削除",
        138 => "ダウンロードフォルダーを再読み込み",
        139 => "ダウンロードフォルダーをエクスプローラーで開く",
        140 => "ホーム、アーカイブ、一括ダウンロードから保存した壁紙がここに表示されます",
        141 => "一括削除するローカル壁紙を選択",
        142 => "このローカル画像を壁紙に設定",
        143 => "このローカル壁紙ファイルを削除",
        _ => "高解像度画像をプレビュー",
    }
}

/// Catalog entry `i` in Korean.
pub open spec fn ko_entry(i: int) -> &'static str {
    if i == 0 {
        "홈"
    } else if i == 1 {
        "전체 해상도"
    } else if i == 2 {
        "원본"
    } else if i == 3 {
        "기본값"
    } else if i == 4 {
        "즐겨찾기"
    } else if i == 5 {
        "일괄 다운로드"
    } else if i == 6 {
        "다운로드한 배경화면"
    } else if i == 7 {
        "다운로드 센터"
    } else if i == 8 {
        "탐색"
    } else if i == 9 {
        "보관함"
    } else if i == 10 {
        "설정"
    } else if i == 11 {
        "언어"
    } else if i == 12 {
        "시스템 설정 따르기"
    } else if i == 13 {
        "Bing 데일리 배경화면 라이브러리"
    } else if i == 14 {
        "배경화면 목록을 불러오는 중..."
    } else if i == 15 {
        "이미지 불러오는 중..."
    } else if i == 16 {
        "다운로드 경로"
    } else if i == 17 {
        "화면 모드"
    } else if i == 18 {
        "다중 모니터"
    } else if i == 19 {
        "자동 배경화면"
    } else if i == 20 {
        "유지 관리"
    } else if i == 21 {
        "설정 닫기"
    } else if i == 22 {
        "배경화면 저장 폴더"
    } else if i == 23 {
        "폴더 열기"
    } else if i == 24 {
        "선택 후 저장"
    } else if i == 25 {
        "시스템"
    } else if i == 26 {
        "라이트"
    } else if i == 27 {
        "다크"
    } else if i == 28 {
        "모든 디스플레이 동기화"
    } else if i == 29 {
        "새로 고침"
    } else if i == 30 {
        "시작 시 실행"
    } else if i == 31 {
        "백그라운드 실행 / 트레이 아이콘"
    } else if i == 32 {
        "매일 배경화면 변경"
    } else if i == 33 {
        "자동 변경 후 종료"
    } else if i == 34 {
        "배경화면 소스"
    } else if i == 35 {
        "최신 배경화면"
    } else if i == 36 {
        "전체 기록에서 무작위"
    } else if i == 37 {
        "즐겨찾기에서 무작위"
    } else if i == 38 {
        "실행 시간"
    } else if i == 39 {
        "시"
    } else if i == 40 {
        "분"
    } else if i == 41 {
        "현재 선택"
    } else if i == 42 {
        "지금 한 번 변경"
    } else if i == 43 {
        "캐시 지우기"
    } else if i == 44 {
        "업데이트 확인"
    } else if i == 45 {
        "정보"
    } else if i == 46 {
        "맨 위로"
    } else if i == 47 {
        "다운로드"
    } else if i == 48 {
        "배경화면으로 설정"
    } else if i == 49 {
        "미리보기"
    } else if i == 50 {
        "즐겨찾기 해제"
    } else if i == 51 {
        "즐겨찾기"
    } else if i == 52 {
        "즐겨찾기가 없습니다"
    } else if i == 53 {
        "다운로드한 배경화면이 없습니다"
    } else if i == 54 {
        "삭제"
    } else if i == 55 {
        "선택 항목 삭제"
    } else if i == 56 {
        "전체 선택"
    } else if i == 57 {
        "선택 해제"
    } else if i == 58 {
        "배경화면 목록 새로 고침"
    } else if i == 59 {
        "새 버전 발견"
    } else if i == 60 {
        "업데이트 내용 보기"
    } else if i == 61 {
        "나중에"
    } else if i == 62 {
        "지금 업데이트"
    } else if i == 63 {
        "메인 창 열기"
    } else if i == 64 {
        "백그라운드 실행"
    } else if i == 65 {
        "종료"
    } else if i == 66 {
        "Bing 데일리 배경화면을 자동으로 가져오고 탐색, 다운로드 및 설정합니다"
    } else if i == 67 {
        "버전"
    } else if i == 68 {
        "저작권 정보"
    } else if i == 69 {
        "오픈 소스 및 감사"
    } else if i == 70 {
        "최근 배경화면은 Bing 공식 API에서, 기록은 zxyongyo/bing-daily-wallpaper에서 가져오며 오프라인 스냅샷도 포함합니다."
    } else if i == 71 {
        "기록 보관소"
    } else if i == 72 {
        "프로젝트 홈"
    } else if i == 73 {
        "비워 두면 기본 폴더를 사용하며, 폴더가 없으면 저장할 때 자동 생성합니다."
    } else if i == 74 {
        "수동으로 선택하면 시스템 테마 변경으로 덮어쓰지 않습니다."
    } else if i == 75 {
        "개별 설정 가능한 디스플레이가 없습니다. 모든 디스플레이에 동기화합니다."
    } else if i == 76 {
        "이후 모든 ‘배경화면으로 설정’ 작업에 이 대상이 적용됩니다."
    } else if i == 77 {
        "매일 자동 실행에만 적용되며 수동 실행 후에는 종료하지 않습니다."
    } else if i == 78 {
        "시와 분을 각각 선택하세요."
    } else if i == 79 {
        "최신 항목은 오늘 이미지를 받습니다. 즐겨찾기 무작위를 사용하기 전에 항목을 추가하세요."
    } else if i == 80 {
        "Windows 작업 스케줄러 배경화면"
    } else if i == 81 {
        "로그온 및 주기적 배경화면 변경 사용"
    } else if i == 82 {
        "매일 첫 실행에는 최신 Bing 배경화면 사용"
    } else if i == 83 {
        "같은 날 이후 배경화면 소스"
    } else if i == 84 {
        "반복 간격"
    } else if i == 85 {
        "1분부터 23시간 59분까지입니다. 00:00은 자동으로 00:01로 조정됩니다."
    } else if i == 86 {
        "현재 사용자 로그온 시 및 선택한 간격마다 실행합니다. 놓친 작업은 PC를 다시 사용할 수 있을 때 한 번 실행하지만 절전 모드를 해제하지는 않습니다. 배경화면을 바꾼 뒤 매번 종료하며, 즐겨찾기가 비어 있으면 전체 기록에서 무작위로 선택합니다. 이 기능을 켜면 기존 시작 프로그램이 꺼집니다."
    } else if i == 87 {
        "주기 작업을 사용하는 동안 기존 시작 프로그램을 동시에 켤 수 없습니다."
    } else if i == 88 {
        "먼저 주기 작업을 끈 다음 기존 시작 프로그램을 켜세요."
    } else if i == 89 {
        "Windows 주기 배경화면 작업을 켰습니다"
    } else if i == 90 {
        "Windows 주기 배경화면 작업을 껐습니다"
    } else if i == 91 {
        "주기 작업 간격을 업데이트했습니다"
    } else if i == 92 {
        "주기 배경화면 설정을 저장했습니다"
    } else if i == 93 {
        "주기 배경화면 소스"
    } else if i == 94 {
        "Windows 주기 배경화면 작업을 켜지 못했습니다"
    } else if i == 95 {
        "Windows 주기 배경화면 작업을 끄지 못했습니다"
    } else if i == 96 {
        "Windows 주기 배경화면 작업을 업데이트하지 못했습니다"
    } else if i == 97 {
        "주기 배경화면 설정을 저장하지 못했습니다"
    } else if i == 98 {
        "기존 시작 프로그램을 끄지 못했습니다"
    } else if i == 99 {
        "최근 배경화면"
    } else if i == 100 {
        "홈 또는 보관함에서 ❤를 눌러 배경화면을 즐겨찾기에 추가하세요."
    } else if i == 101 {
        "빠른 다운로드"
    } else if i == 102 {
        "전체 기록"
    } else if i == 103 {
        "현재 월"
    } else if i == 104 {
        "날짜 범위로 다운로드"
    } else if i == 105 {
        "날짜 범위를 선택하세요"
    } else if i == 106 {
        "선택한 날짜 범위 다운로드"
    } else if i == 107 {
        "왼쪽에서 월을 선택하세요"
    } else if i == 108 {
        "Bing 배경화면 라이브러리를 종료할까요?"
    } else if i == 109 {
        "백그라운드 실행이 꺼져 있습니다. 앱을 종료할까요, 아니면 시스템 트레이로 최소화할까요?"
    } else if i == 110 {
        "트레이로 최소화해도 시작 프로그램은 켜지지 않습니다. 필요하면 설정에서 시작 시 실행을 켜세요."
    } else if i == 111 {
        "트레이로 최소화"
    } else if i == 112 {
        "앱 종료"
    } else if i == 113 {
        "현재 고해상도 배경화면을 로컬 폴더에 저장합니다"
    } else if i == 114 {
        "자동으로 다운로드하고 현재 모니터 설정에 적용합니다"
    } else if i == 115 {
        "원격 데이터에서 목록을 새로 고칩니다. 네트워크를 사용할 수 없으면 내장 목록을 유지합니다"
    } else if i == 116 {
        "현재 최신 버전입니다"
    } else if i == 117 {
        "업데이트 확인에 실패했습니다"
    } else if i == 118 {
        "새 버전 v{version}(현재 v{current})을 사용할 수 있습니다. 지금 업데이트할까요?"
    } else if i == 119 {
        "버전 v{version} 다운로드 중"
    } else if i == 120 {
        "속도"
    } else if i == 121 {
        "남은 시간"
    } else if i == 122 {
        "다운로드가 끝나면 업데이트를 위해 자동으로 다시 시작합니다. 앱을 닫지 마세요."
    } else if i == 123 {
        "배경화면 다운로드 중..."
    } else if i == 124 {
        "썸네일 생성에 실패했습니다. 새로 고쳐 다시 시도하세요"
    } else if i == 125 {
        "로컬 이미지를 읽을 수 없습니다"
    } else if i == 126 {
        "썸네일 생성 중..."
    } else if i == 127 {
        "선택 가능 범위: {start} ~ {end}. 범위 밖 날짜는 비활성화됩니다."
    } else if i == 128 {
        "배경화면 목록을 불러온 후 날짜 범위를 선택할 수 있습니다."
    } else if i == 129 {
        "전체 기록의 배경화면 다운로드"
    } else if i == 130 {
        "왼쪽에서 선택한 월의 배경화면 다운로드"
    } else if i == 131 {
        "즐겨찾기 배경화면 모두 다운로드"
    } else if i == 132 {
        "달력에서 선택한 날짜 범위 다운로드"
    } else if i == 133 {
        "다운로드 진행률"
    } else if i == 134 {
        "건너뜀"
    } else if i == 135 {
        "실패"
    } else if i == 136 {
        "현재 다운로드 폴더의 배경화면 전체 선택 또는 해제"
    } else if i == 137 {
        "선택한 로컬 배경화면 삭제"
    } else if i == 138 {
        "다운로드 폴더 다시 검색"
    } else if i == 139 {
        "파일 탐색기에서 다운로드 폴더 열기"
    } else if i == 140 {
        "홈, 보관함 또는 일괄 다운로드에서 받은 배경화면이 여기에 표시됩니다"
    } else if i == 141 {
        "일괄 삭제할 로컬 배경화면 선택"
    } else if i == 142 {
        "이 로컬 이미지를 배경화면으로 설정"
    } else if i == 143 {
        "이 로컬 배경화면 파일 삭제"
    } else {
        "고해상도 이미지 미리보기"
    }
}

fn ko_entry_exec(i: usize) -> (r: &'static str)
    requires
        i < 145,
    ensures
        r@ == ko_entry(i as int)@,
{
    match i {
        0 => "홈",
        1 => "전체 해상도",
        2 => "원본",
        3 => "기본값",
        4 => "즐겨찾기",
        5 => "일괄 다운로드",
        6 => "다운로드한 배경화면",
        7 => "다운로드 센터",
        8 => "탐색",
        9 => "보관함",
        10 => "설정",
        11 => "언어",
        12 => "시스템 설정 따르기",
        13 => "Bing 데일리 배경화면 라이브러리",
        14 => "배경화면 목록을 불러오는 중...",
        15 => "이미지 불러오는 중...",
        16 => "다운로드 경로",
        17 => "화면 모드",
        18 => "다중 모니터",
        19 => "자동 배경화면",
        20 => "유지 관리",
        21 => "설정 닫기",
        22 => "배경화면 저장 폴더",
        23 => "폴더 열기",
        24 => "선택 후 저장",
        25 => "시스템",
        26 => "라이트",
        27 => "다크",
        28 => "모든 디스플레이 동기화",
        29 => "새로 고침",
        30 => "시작 시 실행",
        31 => "백그라운드 실행 / 트레이 아이콘",
        32 => "매일 배경화면 변경",
        33 => "자동 변경 후 종료",
        34 => "배경화면 소스",
        35 => "최신 배경화면",
        36 => "전체 기록에서 무작위",
        37 => "즐겨찾기에서 무작위",
        38 => "실행 시간",
        39 => "시",
        40 => "분",
        41 => "현재 선택",
        42 => "지금 한 번 변경",
        43 => "캐시 지우기",
        44 => "업데이트 확인",
        45 => "정보",
        46 => "맨 위로",
        47 => "다운로드",
        48 => "배경화면으로 설정",
        49 => "미리보기",
        50 => "즐겨찾기 해제",
        51 => "즐겨찾기",
        52 => "즐겨찾기가 없습니다",
        53 => "다운로드한 배경화면이 없습니다",
        54 => "삭제",
        55 => "선택 항목 삭제",
        56 => "전체 선택",
        57 => "선택 해제",
        58 => "배경화면 목록 새로 고침",
        59 => "새 버전 발견",
        60 => "업데이트 내용 보기",
        61 => "나중에",
        62 => "지금 업데이트",
        63 => "메인 창 열기",
        64 => "백그라운드 실행",
        65 => "종료",
        66 => "Bing 데일리 배경화면을 자동으로 가져오고 탐색, 다운로드 및 설정합니다",
        67 => "버전",
        68 => "저작권 정보",
        69 => "오픈 소스 및 감사",
        70 => "최근 배경화면은 Bing 공식 API에서, 기록은 zxyongyo/bing-daily-wallpaper에서 가져오며 오프라인 스냅샷도 포함합니다.",
        71 => "기록 보관소",
        72 => "프로젝트 홈",
        73 => "비워 두면 기본 폴더를 사용하며, 폴더가 없으면 저장할 때 자동 생성합니다.",
        74 => "수동으로 선택하면 시스템 테마 변경으로 덮어쓰지 않습니다.",
        75 => "개별 설정 가능한 디스플레이가 없습니다. 모든 디스플레이에 동기화합니다.",
        76 => "이후 모든 ‘배경화면으로 설정’ 작업에 이 대상이 적용됩니다.",
        77 => "매일 자동 실행에만 적용되며 수동 실행 후에는 종료하지 않습니다.",
        78 => "시와 분을 각각 선택하세요.",
        79 => "최신 항목은 오늘 이미지를 받습니다. 즐겨찾기 무작위를 사용하기 전에 항목을 추가하세요.",
        80 => "Windows 작업 스케줄러 배경화면",
        81 => "로그온 및 주기적 배경화면 변경 사용",
        82 => "매일 첫 실행에는 최신 Bing 배경화면 사용",
        83 => "같은 날 이후 배경화면 소스",
        84 => "반복 간격",
        85 => "1분부터 23시간 59분까지입니다. 00:00은 자동으로 00:01로 조정됩니다.",
        86 => "현재 사용자 로그온 시 및 선택한 간격마다 실행합니다. 놓친 작업은 PC를 다시 사용할 수 있을 때 한 번 실행하지만 절전 모드를 해제하지는 않습니다. 배경화면을 바꾼 뒤 매번 종료하며, 즐겨찾기가 비어 있으면 전체 기록에서 무작위로 선택합니다. 이 기능을 켜면 기존 시작 프로그램이 꺼집니다.",
        87 => "주기 작업을 사용하는 동안 기존 시작 프로그램을 동시에 켤 수 없습니다.",
        88 => "먼저 주기 작업을 끈 다음 기존 시작 프로그램을 켜세요.",
        89 => "Windows 주기 배경화면 작업을 켰습니다",
        90 => "Windows 주기 배경화면 작업을 껐습니다",
        91 => "주기 작업 간격을 업데이트했습니다",
        92 => "주기 배경화면 설정을 저장했습니다",
        93 => "주기 배경화면 소스",
        94 => "Windows 주기 배경화면 작업을 켜지 못했습니다",
        95 => "Windows 주기 배경화면 작업을 끄지 못했습니다",
        96 => "Windows 주기 배경화면 작업을 업데이트하지 못했습니다",
        97 => "주기 배경화면 설정을 저장하지 못했습니다",
        98 => "기존 시작 프로그램을 끄지 못했습니다",
        99 => "최근 배경화면",
        100 => "홈 또는 보관함에서 ❤를 눌러 배경화면을 즐겨찾기에 추가하세요.",
        101 => "빠른 다운로드",
        102 => "전체 기록",
        103 => "현재 월",
        104 => "날짜 범위로 다운로드",
        105 => "날짜 범위를 선택하세요",
        106 => "선택한 날짜 범위 다운로드",
        107 => "왼쪽에서 월을 선택하세요",
        108 => "Bing 배경화면 라이브러리를 종료할까요?",
        109 => "백그라운드 실행이 꺼져 있습니다. 앱을 종료할까요, 아니면 시스템 트레이로 최소화할까요?",
        110 => "트레이로 최소화해도 시작 프로그램은 켜지지 않습니다. 필요하면 설정에서 시작 시 실행을 켜세요.",
        111 => "트레이로 최소화",
        112 => "앱 종료",
        113 => "현재 고해상도 배경화면을 로컬 폴더에 저장합니다",
        114 => "자동으로 다운로드하고 현재 모니터 설정에 적용합니다",
        115 => "원격 데이터에서 목록을 새로 고칩니다. 네트워크를 사용할 수 없으면 내장 목록을 유지합니다",
        116 => "현재 최신 버전입니다",
        117 => "업데이트 확인에 실패했습니다",
        118 => "새 버전 v{version}(현재 v{current})을 사용할 수 있습니다. 지금 업데이트할까요?",
        119 => "버전 v{version} 다운로드 중",
        120 => "속도",
        121 => "남은 시간",
        122 => "다운로드가 끝나면 업데이트를 위해 자동으로 다시 시작합니다. 앱을 닫지 마세요.",
        123 => "배경화면 다운로드 중...",
        124 => "썸네일 생성에 실패했습니다. 새로 고쳐 다시 시도하세요",
        125 => "로컬 이미지를 읽을 수 없습니다",
        126 => "썸네일 생성 중...",
        127 => "선택 가능 범위: {start} ~ {end}. 범위 밖 날짜는 비활성화됩니다.",
        128 => "배경화면 목록을 불러온 후 날짜 범위를 선택할 수 있습니다.",
        129 => "전체 기록의 배경화면 다운로드",
        130 => "왼쪽에서 선택한 월의 배경화면 다운로드",
        131 => "즐겨찾기 배경화면 모두 다운로드",
        132 => "달력에서 선택한 날짜 범위 다운로드",
        133 => "다운로드 진행률",
        134 => "건너뜀",
        135 => "실패",
        136 => "현재 다운로드 폴더의 배경화면 전체 선택 또는 해제",
        137 => "선택한 로컬 배경화면 삭제",
        138 => "다운로드 폴더 다시 검색",
        139 => "파일 탐색기에서 다운로드 폴더 열기",
        140 => "홈, 보관함 또는 일괄 다운로드에서 받은 배경화면이 여기에 표시됩니다",
        141 => "일괄 삭제할 로컬 배경화면 선택",
        142 => "이 로컬 이미지를 배경화면으로 설정",
        143 => "이 로컬 배경화면 파일 삭제",
        _ => "고해상도 이미지 미리보기",
    }
}

/// Catalog entry `i` in Russian.
pub open spec fn ru_entry(i: int) -> &'static str {
    if i == 0 {
        "Главная"
    } else if i == 1 {
        "Общее разрешение"
    } else if i == 2 {
        "Оригинал"
    } else if i == 3 {
        "По умолчанию"
    } else if i == 4 {
        "Избранное"
    } else if i == 5 {
        "Пакетная загрузка"
    } else if i == 6 {
        "Загруженные обои"
    } else if i == 7 {
        "Центр загрузок"
    } else if i == 8 {
        "Навигация"
    } else if i == 9 {
        "Архив"
    } else if i == 10 {
        "Настройки"
    } else if i == 11 {
        "Язык"
    } else if i == 12 {
        "Как в системе"
    } else if i == 13 {
        "Библиотека обоев Bing"
    } else if i == 14 {
        "Загрузка списка обоев..."
    } else if i == 15 {
        "Загрузка изображения..."
    } else if i == 16 {
        "Папка загрузки"
    } else if i == 17 {
        "Оформление"
    } else if i == 18 {
        "Несколько мониторов"
    } else if i == 19 {
        "Автосмена обоев"
    } else if i == 20 {
        "Обслуживание"
    } else if i == 21 {
        "Закрыть настройки"
    } else if i == 22 {
        "Папка для обоев"
    } else if i == 23 {
        "Открыть папку"
    } else if i == 24 {
        "Выбрать и сохранить"
    } else if i == 25 {
        "Система"
    } else if i == 26 {
        "Светлая"
    } else if i == 27 {
        "Тёмная"
    } else if i == 28 {
        "На все мониторы"
    } else if i == 29 {
        "Обновить"
    } else if i == 30 {
        "Автозапуск"
    } else if i == 31 {
        "Фоновый режим / значок в трее"
    } else if i == 32 {
        "Менять обои ежедневно"
    } else if i == 33 {
        "Выйти после автосмены"
    } else if i == 34 {
        "Источник"
    } else if i == 35 {
        "Последние обои дня"
    } else if i == 36 {
        "Случайные из истории"
    } else if i == 37 {
        "Случайные из избранного"
    } else if i == 38 {
        "Время запуска"
    } else if i == 39 {
        "Час"
    } else if i == 40 {
        "Минута"
    } else if i == 41 {
        "Выбрано"
    } else if i == 42 {
        "Сменить сейчас"
    } else if i == 43 {
        "Очистить кэш"
    } else if i == 44 {
        "Проверить обновления"
    } else if i == 45 {
        "О программе"
    } else if i == 46 {
        "Наверх"
    } else if i == 47 {
        "Скачать"
    } else if i == 48 {
        "Установить как обои"
    } else if i == 49 {
        "Просмотр"
    } else if i == 50 {
        "Убрать из избранного"
    } else if i == 51 {
        "В избранное"
    } else if i == 52 {
        "В избранном пока пусто"
    } else if i == 53 {
        "Загруженных обоев пока нет"
    } else if i == 54 {
        "Удалить"
    } else if i == 55 {
        "Удалить выбранное"
    } else if i == 56 {
        "Выбрать всё"
    } else if i == 57 {
        "Снять выделение"
    } else if i == 58 {
        "Обновить список обоев"
    } else if i == 59 {
        "Доступна новая версия"
    } else if i == 60 {
        "Посмотреть изменения"
    } else if i == 61 {
        "Позже"
    } else if i == 62 {
        "Обновить сейчас"
    } else if i == 63 {
        "Открыть главное окно"
    } else if i == 64 {
        "Работать в фоне"
    } else if i == 65 {
        "Выход"
    } else if i == 66 {
        "Получение, просмотр, загрузка и установка ежедневных обоев Bing"
    } else if i == 67 {
        "Версия"
    } else if i == 68 {
        "Авторские права"
    } else if i == 69 {
        "Открытый код и благодарности"
    } else if i == 70 {
        "Свежие обои загружаются через официальный API Bing, архив — из zxyongyo/bing-daily-wallpaper; также встроена автономная копия."
    } else if i == 71 {
        "Исторический архив"
    } else if i == 72 {
        "Страница проекта"
    } else if i == 73 {
        "Если поле пустое, используется стандартная папка; отсутствующая папка будет создана при сохранении."
    } else if i == 74 {
        "Ручной выбор не будет заменён при изменении системной темы."
    } else if i == 75 {
        "Отдельные мониторы не обнаружены; обои будут синхронизированы на всех экранах."
    } else if i == 76 {
        "Все последующие команды установки обоев будут применяться к этой цели."
    } else if i == 77 {
        "Только для ежедневного запуска; после ручной смены приложение не закрывается."
    } else if i == 78 {
        "Выберите часы и минуты отдельно."
    } else if i == 79 {
        "Последние обои загружают изображение дня. Для случайного выбора сначала добавьте избранное."
    } else if i == 80 {
        "Обои по расписанию Windows"
    } else if i == 81 {
        "Менять обои при входе и по интервалу"
    } else if i == 82 {
        "При первом запуске за день ставить последние обои Bing"
    } else if i == 83 {
        "Источник для следующих запусков за день"
    } else if i == 84 {
        "Интервал повтора"
    } else if i == 85 {
        "От 1 минуты до 23 часов 59 минут; 00:00 автоматически станет 00:01."
    } else if i == 86 {
        "Задача запускается при входе текущего пользователя и через выбранный интервал. Пропущенный запуск будет выполнен один раз, когда ПК снова станет доступен, без пробуждения из сна. После смены обоев программа завершится; если избранное пусто, будут выбраны случайные обои из истории. Включение отключает прежний автозапуск."
    } else if i == 87 {
        "При включённой периодической задаче прежний автозапуск недоступен."
    } else if i == 88 {
        "Сначала отключите периодическую задачу, затем включите прежний автозапуск."
    } else if i == 89 {
        "Периодическая задача Windows включена"
    } else if i == 90 {
        "Периодическая задача Windows отключена"
    } else if i == 91 {
        "Интервал периодической задачи обновлён"
    } else if i == 92 {
        "Настройки периодической смены сохранены"
    } else if i == 93 {
        "Источник периодических обоев"
    } else if i == 94 {
        "Не удалось включить периодическую задачу Windows"
    } else if i == 95 {
        "Не удалось отключить периодическую задачу Windows"
    } else if i == 96 {
        "Не удалось обновить периодическую задачу Windows"
    } else if i == 97 {
        "Не удалось сохранить настройки периодической смены"
    } else if i == 98 {
        "Не удалось отключить прежний автозапуск"
    } else if i == 99 {
        "Недавние обои"
    } else if i == 100 {
        "Нажмите ❤ на главной странице или в архиве, чтобы добавить обои в избранное."
    } else if i == 101 {
        "Быстрая загрузка"
    } else if i == 102 {
        "Вся история"
    } else if i == 103 {
        "Текущий месяц"
    } else if i == 104 {
        "Загрузка по диапазону дат"
    } else if i == 105 {
        "Выберите диапазон дат"
    } else if i == 106 {
        "Скачать выбранный диапазон"
    } else if i == 107 {
        "Выберите месяц слева"
    } else if i == 108 {
        "Выйти из библиотеки обоев Bing?"
    } else if i == 109 {
        "Фоновый режим выключен. Выйти из приложения или свернуть его в системный трей?"
    } else if i == 110 {
        "Сворачивание в трей не включает автозапуск. При необходимости включите его в настройках."
    } else if i == 111 {
        "Свернуть в трей"
    } else if i == 112 {
        "Выйти из приложения"
    } else if i == 113 {
        "Скачать текущие обои высокого разрешения"
    } else if i == 114 {
        "Скачать и применить обои с текущими настройками мониторов"
    } else if i == 115 {
        "Обновить список из удалённых источников; без сети будет использован встроенный список"
    } else if i == 116 {
        "Установлена последняя версия"
    } else if i == 117 {
        "Не удалось проверить обновления"
    } else if i == 118 {
        "Доступна версия v{version} (сейчас v{current}). Обновить сейчас?"
    } else if i == 119 {
        "Загрузка версии v{version}"
    } else if i == 120 {
        "Скорость"
    } else if i == 121 {
        "Осталось"
    } else if i == 122 {
        "После загрузки приложение автоматически перезапустится для обновления. Не закрывайте его."
    } else if i == 123 {
        "Загрузка обоев..."
    } else if i == 124 {
        "Не удалось создать миниатюру. Обновите список и повторите попытку"
    } else if i == 125 {
        "Не удалось прочитать локальное изображение"
    } else if i == 126 {
        "Создание миниатюры..."
    } else if i == 127 {
        "Доступный диапазон: {start} — {end}. Остальные даты отключены."
    } else if i == 128 {
        "Диапазон дат станет доступен после загрузки списка обоев."
    } else if i == 129 {
        "Скачать все обои из истории"
    } else if i == 130 {
        "Скачать обои выбранного слева месяца"
    } else if i == 131 {
        "Скачать все обои из избранного"
    } else if i == 132 {
        "Скачать обои за выбранный в календаре период"
    } else if i == 133 {
        "Ход загрузки"
    } else if i == 134 {
        "Пропущено"
    } else if i == 135 {
        "Ошибок"
    } else if i == 136 {
        "Выбрать или снять выбор со всех обоев в папке"
    } else if i == 137 {
        "Удалить выбранные локальные обои"
    } else if i == 138 {
        "Повторно просканировать папку загрузок"
    } else if i == 139 {
        "Открыть папку загрузок в Проводнике"
    } else if i == 140 {
        "Скачанные с главной страницы, из архива или пакетной загрузки обои появятся здесь"
    } else if i == 141 {
        "Выбрать эти локальные обои для пакетного удаления"
    } else if i == 142 {
        "Установить локальное изображение как обои"
    } else if i == 143 {
        "Удалить этот локальный файл обоев"
    } else {
        "Открыть изображение высокого разрешения"
    }
}

fn ru_entry_exec(i: usize) -> (r: &'static str)
    requires
        i < 145,
    ensures
        r@ == ru_entry(i as int)@,
{
    match i {
        0 => "Главная",
        1 => "Общее разрешение",
        2 => "Оригинал",
        3 => "По умолчанию",
        4 => "Избранное",
        5 => "Пакетная загрузка",
        6 => "Загруженные обои",
        7 => "Центр загрузок",
        8 => "Навигация",
        9 => "Архив",
        10 => "Настройки",
        11 => "Язык",
        12 => "Как в системе",
        13 => "Библиотека обоев Bing",
        14 => "Загрузка списка обоев...",
        15 => "Загрузка изображения...",
        16 => "Папка загрузки",
        17 => "Оформление",
        18 => "Несколько мониторов",
        19 => "Автосмена обоев",
        20 => "Обслуживание",
        21 => "Закрыть настройки",
        22 => "Папка для обоев",
        23 => "Открыть папку",
        24 => "Выбрать и сохранить",
        25 => "Система",
        26 => "Светлая",
        27 => "Тёмная",
        28 => "На все мониторы",
        29 => "Обновить",
        30 => "Автозапуск",
        31 => "Фоновый режим / значок в трее",
        32 => "Менять обои ежедневно",
        33 => "Выйти после автосмены",
        34 => "Источник",
        35 => "Последние обои дня",
        36 => "Случайные из истории",
        37 => "Случайные из избранного",
        38 => "Время запуска",
        39 => "Час",
        40 => "Минута",
        41 => "Выбрано",
        42 => "Сменить сейчас",
        43 => "Очистить кэш",
        44 => "Проверить обновления",
        45 => "О программе",
        46 => "Наверх",
        47 => "Скачать",
        48 => "Установить как обои",
        49 => "Просмотр",
        50 => "Убрать из избранного",
        51 => "В избранное",
        52 => "В избранном пока пусто",
        53 => "Загруженных обоев пока нет",
        54 => "Удалить",
        55 => "Удалить выбранное",
        56 => "Выбрать всё",
        57 => "Снять выделение",
        58 => "Обновить список обоев",
        59 => "Доступна новая версия",
        60 => "Посмотреть изменения",
        61 => "Позже",
        62 => "Обновить сейчас",
        63 => "Открыть главное окно",
        64 => "Работать в фоне",
        65 => "Выход",
        66 => "Получение, просмотр, загрузка и установка ежедневных обоев Bing",
        67 => "Версия",
        68 => "Авторские права",
        69 => "Открытый код и благодарности",
        70 => "Свежие обои загружаются через официальный API Bing, архив — из zxyongyo/bing-daily-wallpaper; также встроена автономная копия.",
        71 => "Исторический архив",
        72 => "Страница проекта",
        73 => "Если поле пустое, используется стандартная папка; отсутствующая папка будет создана при сохранении.",
        74 => "Ручной выбор не будет заменён при изменении системной темы.",
        75 => "Отдельные мониторы не обнаружены; обои будут синхронизированы на всех экранах.",
        76 => "Все последующие команды установки обоев будут применяться к этой цели.",
        77 => "Только для ежедневного запуска; после ручной смены приложение не закрывается.",
        78 => "Выберите часы и минуты отдельно.",
        79 => "Последние обои загружают изображение дня. Для случайного выбора сначала добавьте избранное.",
        80 => "Обои по расписанию Windows",
        81 => "Менять обои при входе и по интервалу",
        82 => "При первом запуске за день ставить последние обои Bing",
        83 => "Источник для следующих запусков за день",
        84 => "Интервал повтора",
        85 => "От 1 минуты до 23 часов 59 минут; 00:00 автоматически станет 00:01.",
        86 => "Задача запускается при входе текущего пользователя и через выбранный интервал. Пропущенный запуск будет выполнен один раз, когда ПК снова станет доступен, без пробуждения из сна. После смены обоев программа завершится; если избранное пусто, будут выбраны случайные обои из истории. Включение отключает прежний автозапуск.",
        87 => "При включённой периодической задаче прежний автозапуск недоступен.",
        88 => "Сначала отключите периодическую задачу, затем включите прежний автозапуск.",
        89 => "Периодическая задача Windows включена",
        90 => "Периодическая задача Windows отключена",
        91 => "Интервал периодической задачи обновлён",
        92 => "Настройки периодической смены сохранены",
        93 => "Источник периодических обоев",
        94 => "Не удалось включить периодическую задачу Windows",
        95 => "Не удалось отключить периодическую задачу Windows",
        96 => "Не удалось обновить периодическую задачу Windows",
        97 => "Не удалось сохранить настройки периодической смены",
        98 => "Не удалось отключить прежний автозапуск",
        99 => "Недавние обои",
        100 => "Нажмите ❤ на главной странице или в архиве, чтобы добавить обои в избранное.",
        101 => "Быстрая загрузка",
        102 => "Вся история",
        103 => "Текущий месяц",
        104 => "Загрузка по диапазону дат",
        105 => "Выберите диапазон дат",
        106 => "Скачать выбранный диапазон",
        107 => "Выберите месяц слева",
        108 => "Выйти из библиотеки обоев Bing?",
        109 => "Фоновый режим выключен. Выйти из приложения или свернуть его в системный трей?",
        110 => "Сворачивание в трей не включает автозапуск. При необходимости включите его в настройках.",
        111 => "Свернуть в трей",
        112 => "Выйти из приложения",
        113 => "Скачать текущие обои высокого разрешения",
        114 => "Скачать и применить обои с текущими настройками мониторов",
        115 => "Обновить список из удалённых источников; без сети будет использован встроенный список",
        116 => "Установлена последняя версия",
        117 => "Не удалось проверить обновления",
        118 => "Доступна версия v{version} (сейчас v{current}). Обновить сейчас?",
        119 => "Загрузка версии v{version}",
        120 => "Скорость",
        121 => "Осталось",
        122 => "После загрузки приложение автоматически перезапустится для обновления. Не закрывайте его.",
        123 => "Загрузка обоев...",
        124 => "Не удалось создать миниатюру. Обновите список и повторите попытку",
        125 => "Не удалось прочитать локальное изображение",
        126 => "Создание миниатюры...",
        127 => "Доступный диапазон: {start} — {end}. Остальные даты отключены.",
        128 => "Диапазон дат станет доступен после загрузки списка обоев.",
        129 => "Скачать все обои из истории",
        130 => "Скачать обои выбранного слева месяца",
        131 => "Скачать все обои из избранного",
        132 => "Скачать обои за выбранный в календаре период",
        133 => "Ход загрузки",
        134 => "Пропущено",
        135 => "Ошибок",
        136 => "Выбрать или снять выбор со всех обоев в папке",
        137 => "Удалить выбранные локальные обои",
        138 => "Повторно просканировать папку загрузок",
        139 => "Открыть папку загрузок в Проводнике",
        140 => "Скачанные с главной страницы, из архива или пакетной загрузки обои появятся здесь",
        141 => "Выбрать эти локальные обои для пакетного удаления",
        142 => "Установить локальное изображение как обои",
        143 => "Удалить этот локальный файл обоев",
        _ => "Открыть изображение высокого разрешения",
    }
}

/// Catalog entry `i` in French.
pub open spec fn fr_entry(i: int) -> &'static str {
    if i == 0 {
        "Accueil"
    } else if i == 1 {
        "Résolution globale"
    } else if i == 2 {
        "Original"
    } else if i == 3 {
        "Par défaut"
    } else if i == 4 {
        "Favoris"
    } else if i == 5 {
        "Téléchargement groupé"
    } else if i == 6 {
        "Fonds d’écran téléchargés"
    } else if i == 7 {
        "Centre de téléchargement"
    } else if i == 8 {
        "Navigation"
    } else if i == 9 {
        "Archives"
    } else if i == 10 {
        "Paramètres"
    } else if i == 11 {
        "Langue"
    } else if i == 12 {
        "Suivre le système"
    } else if i == 13 {
        "Bibliothèque quotidienne Bing"
    } else if i == 14 {
        "Chargement de la liste..."
    } else if i == 15 {
        "Chargement de l’image..."
    } else if i == 16 {
        "Dossier de téléchargement"
    } else if i == 17 {
        "Apparence"
    } else if i == 18 {
        "Multi-écrans"
    } else if i == 19 {
        "Fond d’écran automatique"
    } else if i == 20 {
        "Maintenance"
    } else if i == 21 {
        "Fermer les paramètres"
    } else if i == 22 {
        "Dossier des fonds d’écran"
    } else if i == 23 {
        "Ouvrir le dossier"
    } else if i == 24 {
        "Choisir et enregistrer"
    } else if i == 25 {
        "Système"
    } else if i == 26 {
        "Clair"
    } else if i == 27 {
        "Sombre"
    } else if i == 28 {
        "Synchroniser tous les écrans"
    } else if i == 29 {
        "Actualiser"
    } else if i == 30 {
        "Lancer au démarrage"
    } else if i == 31 {
        "Arrière-plan / icône de notification"
    } else if i == 32 {
        "Changer chaque jour"
    } else if i == 33 {
        "Quitter après le changement"
    } else if i == 34 {
        "Source"
    } else if i == 35 {
        "Dernier fond du jour"
    } else if i == 36 {
        "Aléatoire dans l’historique"
    } else if i == 37 {
        "Aléatoire dans les favoris"
    } else if i == 38 {
        "Heure d’exécution"
    } else if i == 39 {
        "Heure"
    } else if i == 40 {
        "Minute"
    } else if i == 41 {
        "Sélection actuelle"
    } else if i == 42 {
        "Changer maintenant"
    } else if i == 43 {
        "Vider le cache"
    } else if i == 44 {
        "Rechercher des mises à jour"
    } else if i == 45 {
        "À propos"
    } else if i == 46 {
        "Retour en haut"
    } else if i == 47 {
        "Télécharger"
    } else if i == 48 {
        "Définir comme fond d’écran"
    } else if i == 49 {
        "Aperçu"
    } else if i == 50 {
        "Retirer des favoris"
    } else if i == 51 {
        "Ajouter aux favoris"
    } else if i == 52 {
        "Aucun favori pour le moment"
    } else if i == 53 {
        "Aucun fond téléchargé"
    } else if i == 54 {
        "Supprimer"
    } else if i == 55 {
        "Supprimer la sélection"
    } else if i == 56 {
        "Tout sélectionner"
    } else if i == 57 {
        "Effacer la sélection"
    } else if i == 58 {
        "Actualiser la liste"
    } else if i == 59 {
        "Nouvelle version disponible"
    } else if i == 60 {
        "Voir les notes de version"
    } else if i == 61 {
        "Plus tard"
    } else if i == 62 {
        "Mettre à jour maintenant"
    } else if i == 63 {
        "Ouvrir la fenêtre principale"
    } else if i == 64 {
        "Exécuter en arrière-plan"
    } else if i == 65 {
        "Quitter"
    } else if i == 66 {
        "Récupérer, parcourir, télécharger et définir les fonds d’écran quotidiens Bing"
    } else if i == 67 {
        "Version"
    } else if i == 68 {
        "Droits d’auteur"
    } else if i == 69 {
        "Logiciels libres et crédits"
    } else if i == 70 {
        "Les fonds récents viennent de l’API officielle Bing, l’historique de zxyongyo/bing-daily-wallpaper, avec un instantané hors ligne intégré."
    } else if i == 71 {
        "Archive historique"
    } else if i == 72 {
        "Page du projet"
    } else if i == 73 {
        "Laissez vide pour utiliser le dossier par défaut ; il sera créé lors de l’enregistrement si nécessaire."
    } else if i == 74 {
        "Un choix manuel ne sera pas remplacé par les changements du thème système."
    } else if i == 75 {
        "Aucun écran configurable séparément ; les fonds seront synchronisés sur tous les écrans."
    } else if i == 76 {
        "Toutes les prochaines actions de définition du fond utiliseront cette cible."
    } else if i == 77 {
        "S’applique uniquement à l’exécution quotidienne ; le lancement manuel ne ferme pas l’application."
    } else if i == 78 {
        "Sélectionnez séparément l’heure et les minutes."
    } else if i == 79 {
        "Le mode quotidien télécharge l’image du jour. Ajoutez des favoris avant d’utiliser le mode aléatoire."
    } else if i == 80 {
        "Fond d’écran planifié par Windows"
    } else if i == 81 {
        "Changer à l’ouverture de session et périodiquement"
    } else if i == 82 {
        "Utiliser le dernier fond Bing au premier lancement du jour"
    } else if i == 83 {
        "Source pour les lancements suivants du jour"
    } else if i == 84 {
        "Intervalle de répétition"
    } else if i == 85 {
        "De 1 minute à 23 h 59 ; 00:00 est automatiquement remplacé par 00:01."
    } else if i == 86 {
        "La tâche s’exécute à l’ouverture de session de l’utilisateur actuel puis selon l’intervalle choisi. Une exécution manquée est lancée une fois lorsque le PC redevient disponible, sans le réveiller. L’application se ferme après chaque changement ; si les favoris sont vides, elle choisit dans l’historique. L’activation désactive l’ancien démarrage automatique."
    } else if i == 87 {
        "L’ancien démarrage automatique est indisponible pendant que la tâche périodique est active."
    } else if i == 88 {
        "Désactivez d’abord la tâche périodique avant d’activer l’ancien démarrage automatique."
    } else if i == 89 {
        "Tâche périodique Windows activée"
    } else if i == 90 {
        "Tâche périodique Windows désactivée"
    } else if i == 91 {
        "Intervalle de la tâche périodique mis à jour"
    } else if i == 92 {
        "Paramètres périodiques enregistrés"
    } else if i == 93 {
        "Source du fond périodique"
    } else if i == 94 {
        "Impossible d’activer la tâche périodique Windows"
    } else if i == 95 {
        "Impossible de désactiver la tâche périodique Windows"
    } else if i == 96 {
        "Impossible de mettre à jour la tâche périodique Windows"
    } else if i == 97 {
        "Impossible d’enregistrer les paramètres périodiques"
    } else if i == 98 {
        "Impossible de désactiver l’ancien démarrage automatique"
    } else if i == 99 {
        "Fonds récents"
    } else if i == 100 {
        "Cliquez sur ❤ depuis l’accueil ou les archives pour ajouter un fond aux favoris."
    } else if i == 101 {
        "Téléchargement rapide"
    } else if i == 102 {
        "Tout l’historique"
    } else if i == 103 {
        "Mois actuel"
    } else if i == 104 {
        "Télécharger par période"
    } else if i == 105 {
        "Sélectionnez une période"
    } else if i == 106 {
        "Télécharger la période"
    } else if i == 107 {
        "Sélectionnez un mois à gauche"
    } else if i == 108 {
        "Quitter la bibliothèque de fonds Bing ?"
    } else if i == 109 {
        "L’exécution en arrière-plan est désactivée. Voulez-vous quitter ou réduire l’application dans la zone de notification ?"
    } else if i == 110 {
        "La réduction dans la zone de notification n’active pas le démarrage automatique. Activez-le dans les paramètres si nécessaire."
    } else if i == 111 {
        "Réduire dans la zone de notification"
    } else if i == 112 {
        "Quitter l’application"
    } else if i == 113 {
        "Télécharger le fond haute résolution actuel"
    } else if i == 114 {
        "Télécharger et appliquer le fond avec les réglages d’écran actuels"
    } else if i == 115 {
        "Actualiser depuis les sources distantes ; la liste intégrée reste disponible hors connexion"
    } else if i == 116 {
        "Vous utilisez déjà la dernière version"
    } else if i == 117 {
        "Échec de la recherche de mises à jour"
    } else if i == 118 {
        "La version v{version} est disponible (version actuelle v{current}). Mettre à jour maintenant ?"
    } else if i == 119 {
        "Téléchargement de la version v{version}"
    } else if i == 120 {
        "Vitesse"
    } else if i == 121 {
        "Temps restant"
    } else if i == 122 {
        "Après le téléchargement, l’application redémarrera automatiquement pour terminer la mise à jour. Ne la fermez pas."
    } else if i == 123 {
        "Téléchargement du fond d’écran..."
    } else if i == 124 {
        "Échec de la création de la miniature. Actualisez pour réessayer"
    } else if i == 125 {
        "Impossible de lire l’image locale"
    } else if i == 126 {
        "Création de la miniature..."
    } else if i == 127 {
        "Période disponible : {start} à {end}. Les autres dates sont désactivées."
    } else if i == 128 {
        "La période sera disponible après le chargement de la liste des fonds."
    } else if i == 129 {
        "Télécharger tous les fonds de l’historique"
    } else if i == 130 {
        "Télécharger les fonds du mois sélectionné à gauche"
    } else if i == 131 {
        "Télécharger tous les fonds favoris"
    } else if i == 132 {
        "Télécharger la période sélectionnée dans le calendrier"
    } else if i == 133 {
        "Progression du téléchargement"
    } else if i == 134 {
        "Ignorés"
    } else if i == 135 {
        "Échecs"
    } else if i == 136 {
        "Sélectionner ou désélectionner tous les fonds du dossier"
    } else if i == 137 {
        "Supprimer les fonds locaux sélectionnés"
    } else if i == 138 {
        "Analyser de nouveau le dossier de téléchargement"
    } else if i == 139 {
        "Ouvrir le dossier de téléchargement dans l’Explorateur"
    } else if i == 140 {
        "Les fonds téléchargés depuis l’accueil, les archives ou le téléchargement groupé apparaîtront ici"
    } else if i == 141 {
        "Sélectionner ce fond local pour la suppression groupée"
    } else if i == 142 {
        "Définir cette image locale comme fond d’écran"
    } else if i == 143 {
        "Supprimer ce fichier de fond local"
    } else {
        "Afficher l’image haute résolution"
    }
}

fn fr_entry_exec(i: usize) -> (r: &'static str)
    requires
        i < 145,
    ensures
        r@ == fr_entry(i as int)@,
{
    match i {
        0 => "Accueil",
        1 => "Résolution globale",
        2 => "Original",
        3 => "Par défaut",
        4 => "Favoris",
        5 => "Téléchargement groupé",
        6 => "Fonds d’écran téléchargés",
        7 => "Centre de téléchargement",
        8 => "Navigation",
        9 => "Archives",
        10 => "Paramètres",
        11 => "Langue",
        12 => "Suivre le système",
        13 => "Bibliothèque quotidienne Bing",
        14 => "Chargement de la liste...",
        15 => "Chargement de l’image...",
        16 => "Dossier de téléchargement",
        17 => "Apparence",
        18 => "Multi-écrans",
        19 => "Fond d’écran automatique",
        20 => "Maintenance",
        21 => "Fermer les paramètres",
        22 => "Dossier des fonds d’écran",
        23 => "Ouvrir le dossier",
        24 => "Choisir et enregistrer",
        25 => "Système",
        26 => "Clair",
        27 => "Sombre",
        28 => "Synchroniser tous les écrans",
        29 => "Actualiser",
        30 => "Lancer au démarrage",
        31 => "Arrière-plan / icône de notification",
        32 => "Changer chaque jour",
        33 => "Quitter après le changement",
        34 => "Source",
        35 => "Dernier fond du jour",
        36 => "Aléatoire dans l’historique",
        37 => "Aléatoire dans les favoris",
        38 => "Heure d’exécution",
        39 => "Heure",
        40 => "Minute",
        41 => "Sélection actuelle",
        42 => "Changer maintenant",
        43 => "Vider le cache",
        44 => "Rechercher des mises à jour",
        45 => "À propos",
        46 => "Retour en haut",
        47 => "Télécharger",
        48 => "Définir comme fond d’écran",
        49 => "Aperçu",
        50 => "Retirer des favoris",
        51 => "Ajouter aux favoris",
        52 => "Aucun favori pour le moment",
        53 => "Aucun fond téléchargé",
        54 => "Supprimer",
        55 => "Supprimer la sélection",
        56 => "Tout sélectionner",
        57 => "Effacer la sélection",
        58 => "Actualiser la liste",
        59 => "Nouvelle version disponible",
        60 => "Voir les notes de version",
        61 => "Plus tard",
        62 => "Mettre à jour maintenant",
        63 => "Ouvrir la fenêtre principale",
        64 => "Exécuter en arrière-plan",
        65 => "Quitter",
        66 => "Récupérer, parcourir, télécharger et définir les fonds d’écran quotidiens Bing",
        67 => "Version",
        68 => "Droits d’auteur",
        69 => "Logiciels libres et crédits",
        70 => "Les fonds récents viennent de l’API officielle Bing, l’historique de zxyongyo/bing-daily-wallpaper, avec un instantané hors ligne intégré.",
        71 => "Archive historique",
        72 => "Page du projet",
        73 => "Laissez vide pour utiliser le dossier par défaut ; il sera créé lors de l’enregistrement si nécessaire.",
        74 => "Un choix manuel ne sera pas remplacé par les changements du thème système.",
        75 => "Aucun écran configurable séparément ; les fonds seront synchronisés sur tous les écrans.",
        76 => "Toutes les prochaines actions de définition du fond utiliseront cette cible.",
        77 => "S’applique uniquement à l’exécution quotidienne ; le lancement manuel ne ferme pas l’application.",
        78 => "Sélectionnez séparément l’heure et les minutes.",
        79 => "Le mode quotidien télécharge l’image du jour. Ajoutez des favoris avant d’utiliser le mode aléatoire.",
        80 => "Fond d’écran planifié par Windows",
        81 => "Changer à l’ouverture de session et périodiquement",
        82 => "Utiliser le dernier fond Bing au premier lancement du jour",
        83 => "Source pour les lancements suivants du jour",
        84 => "Intervalle de répétition",
        85 => "De 1 minute à 23 h 59 ; 00:00 est automatiquement remplacé par 00:01.",
        86 => "La tâche s’exécute à l’ouverture de session de l’utilisateur actuel puis selon l’intervalle choisi. Une exécution manquée est lancée une fois lorsque le PC redevient disponible, sans le réveiller. L’application se ferme après chaque changement ; si les favoris sont vides, elle choisit dans l’historique. L’activation désactive l’ancien démarrage automatique.",
        87 => "L’ancien démarrage automatique est indisponible pendant que la tâche périodique est active.",
        88 => "Désactivez d’abord la tâche périodique avant d’activer l’ancien démarrage automatique.",
        89 => "Tâche périodique Windows activée",
        90 => "Tâche périodique Windows désactivée",
        91 => "Intervalle de la tâche périodique mis à jour",
        92 => "Paramètres périodiques enregistrés",
        93 => "Source du fond périodique",
        94 => "Impossible d’activer la tâche périodique Windows",
        95 => "Impossible de désactiver la tâche périodique Windows",
        96 => "Impossible de mettre à jour la tâche périodique Windows",
        97 => "Impossible d’enregistrer les paramètres périodiques",
        98 => "Impossible de désactiver l’ancien démarrage automatique",
        99 => "Fonds récents",
        100 => "Cliquez sur ❤ depuis l’accueil ou les archives pour ajouter un fond aux favoris.",
        101 => "Téléchargement rapide",
        102 => "Tout l’historique",
        103 => "Mois actuel",
        104 => "Télécharger par période",
        105 => "Sélectionnez une période",
        106 => "Télécharger la période",
        107 => "Sélectionnez un mois à gauche",
        108 => "Quitter la bibliothèque de fonds Bing ?",
        109 => "L’exécution en arrière-plan est désactivée. Voulez-vous quitter ou réduire l’application dans la zone de notification ?",
        110 => "La réduction dans la zone de notification n’active pas le démarrage automatique. Activez-le dans les paramètres si nécessaire.",
        111 => "Réduire dans la zone de notification",
        112 => "Quitter l’application",
        113 => "Télécharger le fond haute résolution actuel",
        114 => "Télécharger et appliquer le fond avec les réglages d’écran actuels",
        115 => "Actualiser depuis les sources distantes ; la liste intégrée reste disponible hors connexion",
        116 => "Vous utilisez déjà la dernière version",
        117 => "Échec de la recherche de mises à jour",
        118 => "La version v{version} est disponible (version actuelle v{current}). Mettre à jour maintenant ?",
        119 => "Téléchargement de la version v{version}",
        120 => "Vitesse",
        121 => "Temps restant",
        122 => "Après le téléchargement, l’application redémarrera automatiquement pour terminer la mise à jour. Ne la fermez pas.",
        123 => "Téléchargement du fond d’écran...",
        124 => "Échec de la création de la miniature. Actualisez pour réessayer",
        125 => "Impossible de lire l’image locale",
        126 => "Création de la miniature...",
        127 => "Période disponible : {start} à {end}. Les autres dates sont désactivées.",
        128 => "La période sera disponible après le chargement de la liste des fonds.",
        129 => "Télécharger tous les fonds de l’historique",
        130 => "Télécharger les fonds du mois sélectionné à gauche",
        131 => "Télécharger tous les fonds favoris",
        132 => "Télécharger la période sélectionnée dans le calendrier",
        133 => "Progression du téléchargement",
        134 => "Ignorés",
        135 => "Échecs",
        136 => "Sélectionner ou désélectionner tous les fonds du dossier",
        137 => "Supprimer les fonds locaux sélectionnés",
        138 => "Analyser de nouveau le dossier de téléchargement",
        139 => "Ouvrir le dossier de téléchargement dans l’Explorateur",
        140 => "Les fonds téléchargés depuis l’accueil, les archives ou le téléchargement groupé apparaîtront ici",
        141 => "Sélectionner ce fond local pour la suppression groupée",
        142 => "Définir cette image locale comme fond d’écran",
        143 => "Supprimer ce fichier de fond local",
        _ => "Afficher l’image haute résolution",
    }
}

/// Catalog entry `i` in a translated language.
pub open spec fn catalog_entry(language: LanguagePreference, i: int) -> &'static str {
    match language {
        LanguagePreference::SimplifiedChinese => zh_entry(i),
        LanguagePreference::Japanese => ja_entry(i),
        LanguagePreference::Korean => ko_entry(i),
        LanguagePreference::Russian => ru_entry(i),
        _ => fr_entry(i),
    }
}

/// Text shown for `key` in a resolved language: English (and `System`, which
/// resolution never yields) shows the key itself, other languages their
/// catalog entry, or the key when the catalog lacks it.
pub open spec fn translation(language: LanguagePreference, key: Seq<char>) -> Seq<char> {
    if language == LanguagePreference::English || language == LanguagePreference::System {
        key
    } else {
        match catalog_index(key) {
            Some(i) => catalog_entry(language, i)@,
            None => key,
        }
    }
}

/// `translate`: the catalog lookup for a resolved language.
pub fn translate(language: LanguagePreference, key: &'static str) -> (r: &'static str)
    ensures
        r@ == translation(language, key@),
{
    if language == LanguagePreference::English || language == LanguagePreference::System {
        return key;
    }
    match catalog_index_exec(key) {
        None => key,
        Some(i) => {
            proof {
                lemma_catalog_index_bound(key@);
            }
            match language {
                LanguagePreference::SimplifiedChinese => zh_entry_exec(i),
                LanguagePreference::Japanese => ja_entry_exec(i),
                LanguagePreference::Korean => ko_entry_exec(i),
                LanguagePreference::Russian => ru_entry_exec(i),
                _ => fr_entry_exec(i),
            }
        },
    }
}

proof fn lemma_catalog_index_bound(key: Seq<char>)
    ensures
        catalog_index(key) matches Some(i) ==> 0 <= i < 145,
{
}

/// Canned status text of each kind, per language.
pub open spec fn status_text(language: LanguagePreference, status: RuntimeStatus) -> &'static str {
    match language {
        LanguagePreference::Japanese => match status {
            RuntimeStatus::Loaded => "壁紙リストを読み込みました",
            RuntimeStatus::Refreshing => "壁紙リストを更新しています...",
            RuntimeStatus::Refreshed => "壁紙リストを更新しました",
            RuntimeStatus::FavoriteAdded => "お気に入りに追加しました",
            RuntimeStatus::FavoriteRemoved => "お気に入りから削除しました",
            RuntimeStatus::Enabled => "設定を有効にしました",
            RuntimeStatus::Disabled => "設定を無効にしました",
            RuntimeStatus::MinimizedToTray => "システムトレイに最小化しました。終了するにはトレイアイコンを右クリックしてください",
            RuntimeStatus::Downloading => "壁紙をダウンロードしています...",
            RuntimeStatus::DownloadComplete => "ダウンロードが完了しました",
            RuntimeStatus::SettingWallpaper => "壁紙を設定しています...",
            RuntimeStatus::WallpaperSet => "壁紙を設定しました",
            RuntimeStatus::AlreadyLatest => "最新バージョンです",
            RuntimeStatus::DownloadingUpdate => "更新をダウンロードしています...",
            RuntimeStatus::UpdateReady => "ダウンロードが完了しました。更新のため再起動します...",
            RuntimeStatus::ActionRequired => "現在の選択内容を確認してください",
            RuntimeStatus::Failed => "操作に失敗しました",
            RuntimeStatus::Working => "処理しています...",
            RuntimeStatus::Done => "操作が完了しました",
        },
        LanguagePreference::Korean => match status {
            RuntimeStatus::Loaded => "배경화면 목록을 불러왔습니다",
            RuntimeStatus::Refreshing => "배경화면 목록을 새로 고치는 중...",
            RuntimeStatus::Refreshed => "배경화면 목록을 새로 고쳤습니다",
            RuntimeStatus::FavoriteAdded => "즐겨찾기에 추가했습니다",
            RuntimeStatus::FavoriteRemoved => "즐겨찾기에서 제거했습니다",
            RuntimeStatus::Enabled => "설정을 켰습니다",
            RuntimeStatus::Disabled => "설정을 껐습니다",
            RuntimeStatus::MinimizedToTray => "시스템 트레이로 최소화했습니다. 종료하려면 트레이 아이콘을 오른쪽 클릭하세요",
            RuntimeStatus::Downloading => "배경화면을 다운로드하는 중...",
            RuntimeStatus::DownloadComplete => "다운로드를 완료했습니다",
            RuntimeStatus::SettingWallpaper => "배경화면을 설정하는 중...",
            RuntimeStatus::WallpaperSet => "배경화면을 설정했습니다",
            RuntimeStatus::AlreadyLatest => "현재 최신 버전입니다",
            RuntimeStatus::DownloadingUpdate => "업데이트를 다운로드하는 중...",
            RuntimeStatus::UpdateReady => "다운로드가 완료되어 업데이트를 위해 다시 시작합니다...",
            RuntimeStatus::ActionRequired => "현재 선택을 확인하세요",
            RuntimeStatus::Failed => "작업에 실패했습니다",
            RuntimeStatus::Working => "처리 중...",
            RuntimeStatus::Done => "작업을 완료했습니다",
        },
        LanguagePreference::Russian => match status {
            RuntimeStatus::Loaded => "Список обоев загружен",
            RuntimeStatus::Refreshing => "Обновление списка обоев...",
            RuntimeStatus::Refreshed => "Список обоев обновлён",
            RuntimeStatus::FavoriteAdded => "Добавлено в избранное",
            RuntimeStatus::FavoriteRemoved => "Удалено из избранного",
            RuntimeStatus::Enabled => "Настройка включена",
            RuntimeStatus::Disabled => "Настройка выключена",
            RuntimeStatus::MinimizedToTray => "Окно свёрнуто в системный трей; для выхода щёлкните значок правой кнопкой",
            RuntimeStatus::Downloading => "Загрузка обоев...",
            RuntimeStatus::DownloadComplete => "Загрузка завершена",
            RuntimeStatus::SettingWallpaper => "Установка обоев...",
            RuntimeStatus::WallpaperSet => "Обои успешно установлены",
            RuntimeStatus::AlreadyLatest => "Установлена последняя версия",
            RuntimeStatus::DownloadingUpdate => "Загрузка обновления...",
            RuntimeStatus::UpdateReady => "Загрузка завершена; перезапуск для установки обновления...",
            RuntimeStatus::ActionRequired => "Проверьте текущий выбор",
            RuntimeStatus::Failed => "Не удалось выполнить операцию",
            RuntimeStatus::Working => "Выполнение...",
            RuntimeStatus::Done => "Операция завершена",
        },
        LanguagePreference::French => match status {
            RuntimeStatus::Loaded => "Liste des fonds d’écran chargée",
            RuntimeStatus::Refreshing => "Actualisation de la liste...",
            RuntimeStatus::Refreshed => "Liste des fonds d’écran actualisée",
            RuntimeStatus::FavoriteAdded => "Ajouté aux favoris",
            RuntimeStatus::FavoriteRemoved => "Retiré des favoris",
            RuntimeStatus::Enabled => "Paramètre activé",
            RuntimeStatus::Disabled => "Paramètre désactivé",
            RuntimeStatus::MinimizedToTray => "Fenêtre réduite dans la zone de notification ; faites un clic droit sur l’icône pour quitter",
            RuntimeStatus::Downloading => "Téléchargement du fond d’écran...",
            RuntimeStatus::DownloadComplete => "Téléchargement terminé",
            RuntimeStatus::SettingWallpaper => "Définition du fond d’écran...",
            RuntimeStatus::WallpaperSet => "Fond d’écran défini",
            RuntimeStatus::AlreadyLatest => "Vous utilisez déjà la dernière version",
            RuntimeStatus::DownloadingUpdate => "Téléchargement de la mise à jour...",
            RuntimeStatus::UpdateReady => "Téléchargement terminé ; redémarrage pour finaliser la mise à jour...",
            RuntimeStatus::ActionRequired => "Vérifiez la sélection actuelle",
            RuntimeStatus::Failed => "L’opération a échoué",
            RuntimeStatus::Working => "Traitement en cours...",
            RuntimeStatus::Done => "Opération terminée",
        },
        LanguagePreference::SimplifiedChinese => match status {
            RuntimeStatus::Loaded => "壁纸列表已加载",
            RuntimeStatus::Refreshing => "正在刷新壁纸列表...",
            RuntimeStatus::Refreshed => "壁纸列表已刷新",
            RuntimeStatus::FavoriteAdded => "已加入收藏",
            RuntimeStatus::FavoriteRemoved => "已取消收藏",
            RuntimeStatus::Enabled => "设置已开启",
            RuntimeStatus::Disabled => "设置已关闭",
            RuntimeStatus::MinimizedToTray => "已最小化到系统托盘",
            RuntimeStatus::Downloading => "正在下载壁纸...",
            RuntimeStatus::DownloadComplete => "下载完成",
            RuntimeStatus::SettingWallpaper => "正在设置壁纸...",
            RuntimeStatus::WallpaperSet => "壁纸设置完成",
            RuntimeStatus::AlreadyLatest => "当前已是最新版本",
            RuntimeStatus::DownloadingUpdate => "正在下载更新...",
            RuntimeStatus::UpdateReady => "下载完成，即将重启更新...",
            RuntimeStatus::ActionRequired => "请检查当前选择",
            RuntimeStatus::Failed => "操作失败",
            RuntimeStatus::Working => "正在处理...",
            RuntimeStatus::Done => "操作完成",
        },
        _ => match status {
            RuntimeStatus::Loaded => "Wallpaper list loaded",
            RuntimeStatus::Refreshing => "Refreshing the wallpaper list...",
            RuntimeStatus::Refreshed => "Wallpaper list refreshed",
            RuntimeStatus::FavoriteAdded => "Added to favorites",
            RuntimeStatus::FavoriteRemoved => "Removed from favorites",
            RuntimeStatus::Enabled => "Setting enabled",
            RuntimeStatus::Disabled => "Setting disabled",
            RuntimeStatus::MinimizedToTray => "Minimized to the system tray; right-click the tray icon to exit",
            RuntimeStatus::Downloading => "Downloading wallpaper...",
            RuntimeStatus::DownloadComplete => "Download completed",
            RuntimeStatus::SettingWallpaper => "Setting the wallpaper...",
            RuntimeStatus::WallpaperSet => "Wallpaper set successfully",
            RuntimeStatus::AlreadyLatest => "You already have the latest version",
            RuntimeStatus::DownloadingUpdate => "Downloading the update...",
            RuntimeStatus::UpdateReady => "Download completed; restarting to finish the update...",
            RuntimeStatus::ActionRequired => "Please review the current selection",
            RuntimeStatus::Failed => "The operation failed",
            RuntimeStatus::Working => "Working...",
            RuntimeStatus::Done => "Operation completed",
        },
    }
}

/// `runtime_status_text`.
pub fn runtime_status_text(language: LanguagePreference, status: RuntimeStatus) -> (r: &'static str)
    ensures
        r@ == status_text(language, status)@,
{
    match language {
        LanguagePreference::Japanese => match status {
            RuntimeStatus::Loaded => "壁紙リストを読み込みました",
            RuntimeStatus::Refreshing => "壁紙リストを更新しています...",
            RuntimeStatus::Refreshed => "壁紙リストを更新しました",
            RuntimeStatus::FavoriteAdded => "お気に入りに追加しました",
            RuntimeStatus::FavoriteRemoved => "お気に入りから削除しました",
            RuntimeStatus::Enabled => "設定を有効にしました",
            RuntimeStatus::Disabled => "設定を無効にしました",
            RuntimeStatus::MinimizedToTray => "システムトレイに最小化しました。終了するにはトレイアイコンを右クリックしてください",
            RuntimeStatus::Downloading => "壁紙をダウンロードしています...",
            RuntimeStatus::DownloadComplete => "ダウンロードが完了しました",
            RuntimeStatus::SettingWallpaper => "壁紙を設定しています...",
            RuntimeStatus::WallpaperSet => "壁紙を設定しました",
            RuntimeStatus::AlreadyLatest => "最新バージョンです",
            RuntimeStatus::DownloadingUpdate => "更新をダウンロードしています...",
            RuntimeStatus::UpdateReady => "ダウンロードが完了しました。更新のため再起動します...",
            RuntimeStatus::ActionRequired => "現在の選択内容を確認してください",
            RuntimeStatus::Failed => "操作に失敗しました",
            RuntimeStatus::Working => "処理しています...",
            RuntimeStatus::Done => "操作が完了しました",
        },
        LanguagePreference::Korean => match status {
            RuntimeStatus::Loaded => "배경화면 목록을 불러왔습니다",
            RuntimeStatus::Refreshing => "배경화면 목록을 새로 고치는 중...",
            RuntimeStatus::Refreshed => "배경화면 목록을 새로 고쳤습니다",
            RuntimeStatus::FavoriteAdded => "즐겨찾기에 추가했습니다",
            RuntimeStatus::FavoriteRemoved => "즐겨찾기에서 제거했습니다",
            RuntimeStatus::Enabled => "설정을 켰습니다",
            RuntimeStatus::Disabled => "설정을 껐습니다",
            RuntimeStatus::MinimizedToTray => "시스템 트레이로 최소화했습니다. 종료하려면 트레이 아이콘을 오른쪽 클릭하세요",
            RuntimeStatus::Downloading => "배경화면을 다운로드하는 중...",
            RuntimeStatus::DownloadComplete => "다운로드를 완료했습니다",
            RuntimeStatus::SettingWallpaper => "배경화면을 설정하는 중...",
            RuntimeStatus::WallpaperSet => "배경화면을 설정했습니다",
            RuntimeStatus::AlreadyLatest => "현재 최신 버전입니다",
            RuntimeStatus::DownloadingUpdate => "업데이트를 다운로드하는 중...",
            RuntimeStatus::UpdateReady => "다운로드가 완료되어 업데이트를 위해 다시 시작합니다...",
            RuntimeStatus::ActionRequired => "현재 선택을 확인하세요",
            RuntimeStatus::Failed => "작업에 실패했습니다",
            RuntimeStatus::Working => "처리 중...",
            RuntimeStatus::Done => "작업을 완료했습니다",
        },
        LanguagePreference::Russian => match status {
            RuntimeStatus::Loaded => "Список обоев загружен",
            RuntimeStatus::Refreshing => "Обновление списка обоев...",
            RuntimeStatus::Refreshed => "Список обоев обновлён",
            RuntimeStatus::FavoriteAdded => "Добавлено в избранное",
            RuntimeStatus::FavoriteRemoved => "Удалено из избранного",
            RuntimeStatus::Enabled => "Настройка включена",
            RuntimeStatus::Disabled => "Настройка выключена",
            RuntimeStatus::MinimizedToTray => "Окно свёрнуто в системный трей; для выхода щёлкните значок правой кнопкой",
            RuntimeStatus::Downloading => "Загрузка обоев...",
            RuntimeStatus::DownloadComplete => "Загрузка завершена",
            RuntimeStatus::SettingWallpaper => "Установка обоев...",
            RuntimeStatus::WallpaperSet => "Обои успешно установлены",
            RuntimeStatus::AlreadyLatest => "Установлена последняя версия",
            RuntimeStatus::DownloadingUpdate => "Загрузка обновления...",
            RuntimeStatus::UpdateReady => "Загрузка завершена; перезапуск для установки обновления...",
            RuntimeStatus::ActionRequired => "Проверьте текущий выбор",
            RuntimeStatus::Failed => "Не удалось выполнить операцию",
            RuntimeStatus::Working => "Выполнение...",
            RuntimeStatus::Done => "Операция завершена",
        },
        LanguagePreference::French => match status {
            RuntimeStatus::Loaded => "Liste des fonds d’écran chargée",
            RuntimeStatus::Refreshing => "Actualisation de la liste...",
            RuntimeStatus::Refreshed => "Liste des fonds d’écran actualisée",
            RuntimeStatus::FavoriteAdded => "Ajouté aux favoris",
            RuntimeStatus::FavoriteRemoved => "Retiré des favoris",
            RuntimeStatus::Enabled => "Paramètre activé",
            RuntimeStatus::Disabled => "Paramètre désactivé",
            RuntimeStatus::MinimizedToTray => "Fenêtre réduite dans la zone de notification ; faites un clic droit sur l’icône pour quitter",
            RuntimeStatus::Downloading => "Téléchargement du fond d’écran...",
            RuntimeStatus::DownloadComplete => "Téléchargement terminé",
            RuntimeStatus::SettingWallpaper => "Définition du fond d’écran...",
            RuntimeStatus::WallpaperSet => "Fond d’écran défini",
            RuntimeStatus::AlreadyLatest => "Vous utilisez déjà la dernière version",
            RuntimeStatus::DownloadingUpdate => "Téléchargement de la mise à jour...",
            RuntimeStatus::UpdateReady => "Téléchargement terminé ; redémarrage pour finaliser la mise à jour...",
            RuntimeStatus::ActionRequired => "Vérifiez la sélection actuelle",
            RuntimeStatus::Failed => "L’opération a échoué",
            RuntimeStatus::Working => "Traitement en cours...",
            RuntimeStatus::Done => "Opération terminée",
        },
        LanguagePreference::SimplifiedChinese => match status {
            RuntimeStatus::Loaded => "壁纸列表已加载",
            RuntimeStatus::Refreshing => "正在刷新壁纸列表...",
            RuntimeStatus::Refreshed => "壁纸列表已刷新",
            RuntimeStatus::FavoriteAdded => "已加入收藏",
            RuntimeStatus::FavoriteRemoved => "已取消收藏",
            RuntimeStatus::Enabled => "设置已开启",
            RuntimeStatus::Disabled => "设置已关闭",
            RuntimeStatus::MinimizedToTray => "已最小化到系统托盘",
            RuntimeStatus::Downloading => "正在下载壁纸...",
            RuntimeStatus::DownloadComplete => "下载完成",
            RuntimeStatus::SettingWallpaper => "正在设置壁纸...",
            RuntimeStatus::WallpaperSet => "壁纸设置完成",
            RuntimeStatus::AlreadyLatest => "当前已是最新版本",
            RuntimeStatus::DownloadingUpdate => "正在下载更新...",
            RuntimeStatus::UpdateReady => "下载完成，即将重启更新...",
            RuntimeStatus::ActionRequired => "请检查当前选择",
            RuntimeStatus::Failed => "操作失败",
            RuntimeStatus::Working => "正在处理...",
            RuntimeStatus::Done => "操作完成",
        },
        _ => match status {
            RuntimeStatus::Loaded => "Wallpaper list loaded",
            RuntimeStatus::Refreshing => "Refreshing the wallpaper list...",
            RuntimeStatus::Refreshed => "Wallpaper list refreshed",
            RuntimeStatus::FavoriteAdded => "Added to favorites",
            RuntimeStatus::FavoriteRemoved => "Removed from favorites",
            RuntimeStatus::Enabled => "Setting enabled",
            RuntimeStatus::Disabled => "Setting disabled",
            RuntimeStatus::MinimizedToTray => "Minimized to the system tray; right-click the tray icon to exit",
            RuntimeStatus::Downloading => "Downloading wallpaper...",
            RuntimeStatus::DownloadComplete => "Download completed",
            RuntimeStatus::SettingWallpaper => "Setting the wallpaper...",
            RuntimeStatus::WallpaperSet => "Wallpaper set successfully",
            RuntimeStatus::AlreadyLatest => "You already have the latest version",
            RuntimeStatus::DownloadingUpdate => "Downloading the update...",
            RuntimeStatus::UpdateReady => "Download completed; restarting to finish the update...",
            RuntimeStatus::ActionRequired => "Please review the current selection",
            RuntimeStatus::Failed => "The operation failed",
            RuntimeStatus::Working => "Working...",
            RuntimeStatus::Done => "Operation completed",
        },
    }
}

/// CJK unified ideographs (including extension A and the compatibility block).
pub open spec fn is_han_char(c: char) -> bool {
    ('\u{3400}' <= c && c <= '\u{4dbf}') || ('\u{4e00}' <= c && c <= '\u{9fff}') || ('\u{f900}'
        <= c && c <= '\u{faff}')
}

/// `is_han`.
pub fn is_han(c: char) -> (r: bool)
    ensures
        r == is_han_char(c),
{
    ('\u{3400}' <= c && c <= '\u{4dbf}') || ('\u{4e00}' <= c && c <= '\u{9fff}') || ('\u{f900}'
        <= c && c <= '\u{faff}')
}

pub open spec fn has_han(s: Seq<char>) -> bool {
    exists|i: int| 0 <= i < s.len() && is_han_char(#[trigger] s[i])
}

fn any_han(s: &Vec<char>) -> (r: bool)
    ensures
        r == has_han(s@),
{
    let mut i: usize = 0;
    while i < s.len()
        invariant
            0 <= i <= s@.len(),
            forall|j: int| 0 <= j < i ==> !is_han_char(#[trigger] s@[j]),
        decreases s@.len() - i,
    {
        if is_han(s[i]) {
            return true;
        }
        i = i + 1;
    }
    false
}

/// The kind of a Chinese status message, recognised by its wording.
pub open spec fn status_kind(m: Seq<char>) -> RuntimeStatus {
    if has_prefix(m, "共 "@) && contains_seq(m, "张壁纸"@) {
        RuntimeStatus::Loaded
    } else if contains_seq(m, "正在重新获取壁纸列表"@) {
        RuntimeStatus::Refreshing
    } else if contains_seq(m, "已重新获取壁纸列表"@) {
        RuntimeStatus::Refreshed
    } else if contains_seq(m, "已加入收藏"@) {
        RuntimeStatus::FavoriteAdded
    } else if contains_seq(m, "已取消收藏"@) {
        RuntimeStatus::FavoriteRemoved
    } else if contains_seq(m, "已最小化到系统托盘"@) {
        RuntimeStatus::MinimizedToTray
    } else if contains_seq(m, "当前已是最新版本"@) {
        RuntimeStatus::AlreadyLatest
    } else if contains_seq(m, "正在下载新版本"@) {
        RuntimeStatus::DownloadingUpdate
    } else if contains_seq(m, "下载完成，即将重启"@) {
        RuntimeStatus::UpdateReady
    } else if has_prefix(m, "正在下载 "@) || contains_seq(m, "壁纸下载中"@) {
        RuntimeStatus::Downloading
    } else if contains_seq(m, "已下载完成"@) {
        RuntimeStatus::DownloadComplete
    } else if has_prefix(m, "正在将 "@) && contains_seq(m, "设置为"@) {
        RuntimeStatus::SettingWallpaper
    } else if has_prefix(m, "已将 "@) && contains_seq(m, "设置为"@) {
        RuntimeStatus::WallpaperSet
    } else if has_prefix(m, "已开启"@) {
        RuntimeStatus::Enabled
    } else if has_prefix(m, "已关闭"@) {
        RuntimeStatus::Disabled
    } else if contains_seq(m, "失败"@) || contains_seq(m, "错误"@) || contains_seq(m, "异常"@) {
        RuntimeStatus::Failed
    } else if has_prefix(m, "请选择"@) || contains_seq(m, "不能"@) || contains_seq(m, "没有可"@)
        || contains_seq(m, "为空"@) {
        RuntimeStatus::ActionRequired
    } else if contains_seq(m, "正在"@) || contains_seq(m, "开始"@) {
        RuntimeStatus::Working
    } else {
        RuntimeStatus::Done
    }
}

fn status_kind_exec(m: &Vec<char>) -> (r: RuntimeStatus)
    ensures
        r == status_kind(m@),
{
    if starts_with(m, "共 ") && contains(m, "张壁纸") {
        RuntimeStatus::Loaded
    } else if contains(m, "正在重新获取壁纸列表") {
        RuntimeStatus::Refreshing
    } else if contains(m, "已重新获取壁纸列表") {
        RuntimeStatus::Refreshed
    } else if contains(m, "已加入收藏") {
        RuntimeStatus::FavoriteAdded
    } else if contains(m, "已取消收藏") {
        RuntimeStatus::FavoriteRemoved
    } else if contains(m, "已最小化到系统托盘") {
        RuntimeStatus::MinimizedToTray
    } else if contains(m, "当前已是最新版本") {
        RuntimeStatus::AlreadyLatest
    } else if contains(m, "正在下载新版本") {
        RuntimeStatus::DownloadingUpdate
    } else if contains(m, "下载完成，即将重启") {
        RuntimeStatus::UpdateReady
    } else if starts_with(m, "正在下载 ") || contains(m, "壁纸下载中") {
        RuntimeStatus::Downloading
    } else if contains(m, "已下载完成") {
        RuntimeStatus::DownloadComplete
    } else if starts_with(m, "正在将 ") && contains(m, "设置为") {
        RuntimeStatus::SettingWallpaper
    } else if starts_with(m, "已将 ") && contains(m, "设置为") {
        RuntimeStatus::WallpaperSet
    } else if starts_with(m, "已开启") {
        RuntimeStatus::Enabled
    } else if starts_with(m, "已关闭") {
        RuntimeStatus::Disabled
    } else if contains(m, "失败") || contains(m, "错误") || contains(m, "异常") {
        RuntimeStatus::Failed
    } else if starts_with(m, "请选择") || contains(m, "不能") || contains(m, "没有可") || contains(
        m,
        "为空",
    ) {
        RuntimeStatus::ActionRequired
    } else if contains(m, "正在") || contains(m, "开始") {
        RuntimeStatus::Working
    } else {
        RuntimeStatus::Done
    }
}

/// Prefix of messages that report the automatic wallpaper source.
pub const AUTO_SOURCE_PREFIX: &'static str = "Automatic wallpaper source: ";

/// Translated lead-in of the automatic wallpaper source message.
pub open spec fn auto_source_label(language: LanguagePreference) -> &'static str {
    match language {
        LanguagePreference::Japanese => "自動壁紙の取得元",
        LanguagePreference::Korean => "자동 배경화면 소스",
        LanguagePreference::Russian => "Источник автоматических обоев",
        LanguagePreference::French => "Source du fond automatique",
        _ => "Automatic wallpaper source",
    }
}

fn auto_source_label_exec(language: LanguagePreference) -> (r: &'static str)
    ensures
        r@ == auto_source_label(language)@,
{
    match language {
        LanguagePreference::Japanese => "自動壁紙の取得元",
        LanguagePreference::Korean => "자동 배경화면 소스",
        LanguagePreference::Russian => "Источник автоматических обоев",
        LanguagePreference::French => "Source du fond automatique",
        _ => "Automatic wallpaper source",
    }
}

/// Status text shown for `message` in a resolved language.
pub open spec fn localized_status(language: LanguagePreference, message: Seq<char>) -> Seq<char> {
    if language == LanguagePreference::SimplifiedChinese {
        message
    } else if has_prefix(message, AUTO_SOURCE_PREFIX@) {
        auto_source_label(language)@ + ": "@ + message.subrange(
            AUTO_SOURCE_PREFIX@.len() as int,
            message.len() as int,
        )
    } else if has_prefix(message, "Failed to save language setting:"@) {
        status_text(language, RuntimeStatus::Failed)@
    } else if !has_han(message) {
        message
    } else {
        status_text(language, status_kind(message))@
    }
}

/// `localize_status` for a resolved language.
pub fn localize_status_resolved(language: LanguagePreference, message: &str) -> (r: String)
    ensures
        r@ == localized_status(language, message@),
{
    if language == LanguagePreference::SimplifiedChinese {
        return string_of(chars_of(message).as_slice());
    }
    let m = chars_of(message);
    if starts_with(&m, AUTO_SOURCE_PREFIX) {
        let p = chars_of(AUTO_SOURCE_PREFIX);
        let source = slice_chars(&m, p.len(), m.len());
        let mut out: Vec<char> = Vec::new();
        push_all(&mut out, auto_source_label_exec(language));
        push_all(&mut out, ": ");
        push_seq(&mut out, &source);
        return string_of(out.as_slice());
    }
    if starts_with(&m, "Failed to save language setting:") {
        let text = runtime_status_text(language, RuntimeStatus::Failed);
        return string_of(chars_of(text).as_slice());
    }
    if !any_han(&m) {
        return string_of(m.as_slice());
    }
    let kind = status_kind_exec(&m);
    let text = runtime_status_text(language, kind);
    string_of(chars_of(text).as_slice())
}


/// Resolving a preference always gives a concrete language, and resolving
/// that language again (under any locale) keeps it.
pub proof fn lemma_resolve_concrete(language: LanguagePreference, locale: Seq<char>, other: Seq<char>)
    ensures
        resolve(language, locale) != LanguagePreference::System,
        resolve(resolve(language, locale), other) == resolve(language, locale),
        language != LanguagePreference::System ==> resolve(language, locale) == language,
{
}

/// English texts are the catalog keys themselves.
pub proof fn lemma_english_is_identity(key: Seq<char>)
    ensures
        translation(LanguagePreference::English, key) == key,
{
}

/// Chinese status messages are shown as they are.
pub proof fn lemma_chinese_status_unchanged(message: Seq<char>)
    ensures
        localized_status(LanguagePreference::SimplifiedChinese, message) == message,
{
}

/// `needle` does not occur in `hay` when its first character occurs in
/// `hay` only at the start, and there the second characters differ.
proof fn lemma_absent(hay: Seq<char>, needle: Seq<char>)
    requires
        needle.len() >= 2,
        forall|p: int| 1 <= p < hay.len() ==> hay[p] != needle[0],
        hay.len() >= 2 ==> hay[1] != needle[1],
    ensures
        !contains_seq(hay, needle),
{
    lemma_first_match_from(hay, needle, 0);
    if let Some(k) = first_match(hay, needle) {
        assert(matches_at(hay, needle, k));
        assert(hay.subrange(k, k + needle.len())[0] == needle[0]);
        if k == 0 {
            assert(hay.subrange(0, needle.len() as int)[1] == needle[1]);
        }
    }
}

/// `needle` occurs in `hay` when `hay` starts with it.
proof fn lemma_present_at_start(hay: Seq<char>, needle: Seq<char>)
    requires
        has_prefix(hay, needle),
    ensures
        contains_seq(hay, needle),
{
    assert(matches_at(hay, needle, 0));
}

/// The status messages of a favorite that was removed (`已取消收藏: `) and
/// of one that was added (`已加入收藏: `), followed by any ASCII text such as
/// the day, are shown in every language but Chinese as that language's
/// "removed from favorites" and "added to favorites" texts, which differ.
pub proof fn lemma_favorite_statuses(language: LanguagePreference, tail: Seq<char>)
    requires
        language != LanguagePreference::SimplifiedChinese,
        forall|i: int| 0 <= i < tail.len() ==> (tail[i] as u32) < 128,
    ensures
        localized_status(language, "已取消收藏: "@ + tail) == status_text(
            language,
            RuntimeStatus::FavoriteRemoved,
        )@,
        localized_status(language, "已加入收藏: "@ + tail) == status_text(
            language,
            RuntimeStatus::FavoriteAdded,
        )@,
        localized_status(language, "已取消收藏: "@ + tail) != localized_status(
            language,
            "已加入收藏: "@ + tail,
        ),
        localized_status(LanguagePreference::English, "已取消收藏: "@ + tail) == "Removed from favorites"@,
{
    reveal_strlit("已取消收藏: ");
    reveal_strlit("已加入收藏: ");
    reveal_strlit("已取消收藏");
    reveal_strlit("已加入收藏");
    reveal_strlit("正在重新获取壁纸列表");
    reveal_strlit("已重新获取壁纸列表");
    reveal_strlit("共 ");
    reveal_strlit("张壁纸");
    reveal_strlit("Automatic wallpaper source: ");
    reveal_strlit("Failed to save language setting:");
    reveal_strlit("Removed from favorites");
    reveal_strlit("Added to favorites");
    let removed = "已取消收藏: "@ + tail;
    let added = "已加入收藏: "@ + tail;
    assert forall|p: int| 7 <= p < removed.len() implies (removed[p] as u32) < 128 by {
        assert(removed[p] == tail[p - 7]);
    }
    assert forall|p: int| 7 <= p < added.len() implies (added[p] as u32) < 128 by {
        assert(added[p] == tail[p - 7]);
    }
    assert(removed[0] == '已' && removed[1] == '取');
    assert(added[0] == '已' && added[1] == '加');
    assert(is_han_char(removed[0]));
    assert(is_han_char(added[0]));
    assert(!has_prefix(removed, "共 "@)) by { assert(removed.subrange(0, 2)[0] != "共 "@[0]); }
    assert(!has_prefix(added, "共 "@)) by { assert(added.subrange(0, 2)[0] != "共 "@[0]); }
    assert(!has_prefix(removed, AUTO_SOURCE_PREFIX@)) by {
        if has_prefix(removed, AUTO_SOURCE_PREFIX@) {
            assert(removed.subrange(0, AUTO_SOURCE_PREFIX@.len() as int)[0] == removed[0]);
        }
    }
    assert(!has_prefix(added, AUTO_SOURCE_PREFIX@)) by {
        if has_prefix(added, AUTO_SOURCE_PREFIX@) {
            assert(added.subrange(0, AUTO_SOURCE_PREFIX@.len() as int)[0] == added[0]);
        }
    }
    assert(!has_prefix(removed, "Failed to save language setting:"@)) by {
        if has_prefix(removed, "Failed to save language setting:"@) {
            assert(removed.subrange(0, 32)[0] == removed[0]);
        }
    }
    assert(!has_prefix(added, "Failed to save language setting:"@)) by {
        if has_prefix(added, "Failed to save language setting:"@) {
            assert(added.subrange(0, 32)[0] == added[0]);
        }
    }
    lemma_absent(removed, "正在重新获取壁纸列表"@);
    lemma_absent(added, "正在重新获取壁纸列表"@);
    lemma_absent(removed, "已重新获取壁纸列表"@);
    lemma_absent(added, "已重新获取壁纸列表"@);
    lemma_absent(removed, "已加入收藏"@);
    assert(removed.subrange(0, 5) =~= "已取消收藏"@);
    assert(added.subrange(0, 5) =~= "已加入收藏"@);
    lemma_present_at_start(removed, "已取消收藏"@);
    lemma_present_at_start(added, "已加入收藏"@);
    reveal_strlit("お気に入りに追加しました");
    reveal_strlit("お気に入りから削除しました");
    reveal_strlit("즐겨찾기에 추가했습니다");
    reveal_strlit("즐겨찾기에서 제거했습니다");
    reveal_strlit("Добавлено в избранное");
    reveal_strlit("Удалено из избранного");
    reveal_strlit("Ajouté aux favoris");
    reveal_strlit("Retiré des favoris");
    let a = status_text(language, RuntimeStatus::FavoriteAdded)@;
    let r = status_text(language, RuntimeStatus::FavoriteRemoved)@;
    assert(a[0] != r[0] || a.len() != r.len() || a[1] != r[1] || a[2] != r[2] || a[5] != r[5]);
}

} // verus!
