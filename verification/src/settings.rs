//! Application settings: the preference enums, their labels, the settings
//! record with its defaults, and the decisions the automatic wallpaper
//! schedule makes from them.
use vstd::prelude::*;
use crate::date::Date;
use crate::i18n::{resolve, translation, LanguagePreference};

verus! {

/// Light/dark theme choice; `System` follows Windows.
#[derive(Clone, Copy, Debug, PartialEq, Eq, Hash, Structural)]
pub enum ThemePreference {
    System,
    Light,
    Dark,
}

impl Default for ThemePreference {
    fn default() -> (r: Self)
        ensures
            r == ThemePreference::System,
    {
        ThemePreference::System
    }
}

impl ThemePreference {
    /// Label of the choice in the interface language.
    pub fn label(self, language: LanguagePreference, system_locale: &str) -> (r: &'static str)
        ensures
            r@ == translation(resolve(language, system_locale@), theme_key(self)@),
    {
        match self {
            ThemePreference::System => language.t(system_locale, "System"),
            ThemePreference::Light => language.t(system_locale, "Light"),
            ThemePreference::Dark => language.t(system_locale, "Dark"),
        }
    }
}

/// Catalog key of a theme choice.
pub open spec fn theme_key(t: ThemePreference) -> &'static str {
    match t {
        ThemePreference::System => "System",
        ThemePreference::Light => "Light",
        ThemePreference::Dark => "Dark",
    }
}

/// Which displays "set as wallpaper" applies to.
#[derive(Debug, PartialEq, Eq)]
pub enum WallpaperTarget {
    All,
    Monitor(String),
}

impl Default for WallpaperTarget {
    fn default() -> (r: Self)
        ensures
            r == WallpaperTarget::All,
    {
        WallpaperTarget::All
    }
}

impl Clone for WallpaperTarget {
    fn clone(&self) -> (r: Self)
        ensures
            r == *self,
    {
        match self {
            WallpaperTarget::All => WallpaperTarget::All,
            WallpaperTarget::Monitor(id) => WallpaperTarget::Monitor(id.clone()),
        }
    }
}

impl WallpaperTarget {
    /// Device path of the chosen display, if one display is chosen.
    pub fn monitor_id(&self) -> (r: Option<&str>)
        ensures
            match self {
                WallpaperTarget::All => r is None,
                WallpaperTarget::Monitor(id) => r matches Some(s) && s@ == id@,
            },
    {
        match self {
            WallpaperTarget::All => None,
            WallpaperTarget::Monitor(id) => Some(id.as_str()),
        }
    }
}

/// Resolution used for downloads and for setting the wallpaper.
#[derive(Clone, Copy, Debug, PartialEq, Eq, Hash, Structural)]
pub enum DownloadResolution {
    Original,
    FourK,
    TwoK,
    OneK,
}

impl Default for DownloadResolution {
    fn default() -> (r: Self)
        ensures
            r == DownloadResolution::FourK,
    {
        DownloadResolution::FourK
    }
}

impl DownloadResolution {
    /// Every choice, in menu order.
    pub fn all() -> (r: Vec<DownloadResolution>)
        ensures
            r@ == seq![
                DownloadResolution::Original,
                DownloadResolution::FourK,
                DownloadResolution::TwoK,
                DownloadResolution::OneK,
            ],
    {
        let mut v = Vec::new();
        v.push(DownloadResolution::Original);
        v.push(DownloadResolution::FourK);
        v.push(DownloadResolution::TwoK);
        v.push(DownloadResolution::OneK);
        v
    }

    /// Short label: the translated "Original", or `4K`, `2K`, `1K`.
    pub fn label(self, language: LanguagePreference, system_locale: &str) -> (r: &'static str)
        ensures
            r@ == match self {
                DownloadResolution::Original => translation(
                    resolve(language, system_locale@),
                    "Original"@,
                ),
                DownloadResolution::FourK => "4K"@,
                DownloadResolution::TwoK => "2K"@,
                DownloadResolution::OneK => "1K"@,
            },
    {
        match self {
            DownloadResolution::Original => language.t(system_locale, "Original"),
            DownloadResolution::FourK => "4K",
            DownloadResolution::TwoK => "2K",
            DownloadResolution::OneK => "1K",
        }
    }

    /// Pixel size shown beside the label.
    pub fn detail(self) -> (r: &'static str)
        ensures
            r@ == resolution_detail(self)@,
    {
        match self {
            DownloadResolution::Original => "UHD",
            DownloadResolution::FourK => "3840×2160",
            DownloadResolution::TwoK => "2560×1440",
            DownloadResolution::OneK => "1920×1080",
        }
    }

    /// Label used in status messages.
    pub fn status_label(self, language: LanguagePreference, system_locale: &str) -> (r:
        &'static str)
        ensures
            r@ == match self {
                DownloadResolution::Original => translation(
                    resolve(language, system_locale@),
                    "Original"@,
                ),
                DownloadResolution::FourK => "4K-3840×2160"@,
                DownloadResolution::TwoK => "2K-2560×1440"@,
                DownloadResolution::OneK => "1K-1920×1080"@,
            },
    {
        match self {
            DownloadResolution::Original => language.t(system_locale, "Original"),
            DownloadResolution::FourK => "4K-3840×2160",
            DownloadResolution::TwoK => "2K-2560×1440",
            DownloadResolution::OneK => "1K-1920×1080",
        }
    }
}

pub open spec fn resolution_detail(r: DownloadResolution) -> &'static str {
    match r {
        DownloadResolution::Original => "UHD",
        DownloadResolution::FourK => "3840×2160",
        DownloadResolution::TwoK => "2560×1440",
        DownloadResolution::OneK => "1920×1080",
    }
}

/// Source of the daily automatic wallpaper.
#[derive(Clone, Copy, Debug, PartialEq, Eq, Hash, Structural)]
pub enum AutoWallpaperSource {
    /// The newest Bing wallpaper.
    Latest,
    /// A random wallpaper from the whole history.
    RandomAll,
    /// A random favourite.
    RandomFavorites,
}

impl Default for AutoWallpaperSource {
    fn default() -> (r: Self)
        ensures
            r == AutoWallpaperSource::Latest,
    {
        AutoWallpaperSource::Latest
    }
}

pub open spec fn auto_source_key(s: AutoWallpaperSource) -> &'static str {
    match s {
        AutoWallpaperSource::Latest => "Latest daily wallpaper",
        AutoWallpaperSource::RandomAll => "Random from all history",
        AutoWallpaperSource::RandomFavorites => "Random from favorites",
    }
}

impl AutoWallpaperSource {
    pub fn label(self, language: LanguagePreference, system_locale: &str) -> (r: &'static str)
        ensures
            r@ == translation(resolve(language, system_locale@), auto_source_key(self)@),
    {
        match self {
            AutoWallpaperSource::Latest => language.t(system_locale, "Latest daily wallpaper"),
            AutoWallpaperSource::RandomAll => language.t(system_locale, "Random from all history"),
            AutoWallpaperSource::RandomFavorites => language.t(
                system_locale,
                "Random from favorites",
            ),
        }
    }
}

/// Random source that the periodic task uses after the first run of a day.
#[derive(Clone, Copy, Debug, PartialEq, Eq, Hash, Structural)]
pub enum PeriodicWallpaperSource {
    /// A random wallpaper from the whole history.
    RandomAll,
    /// A random favourite; the whole history when there are no favourites.
    RandomFavorites,
}

impl Default for PeriodicWallpaperSource {
    fn default() -> (r: Self)
        ensures
            r == PeriodicWallpaperSource::RandomAll,
    {
        PeriodicWallpaperSource::RandomAll
    }
}

pub open spec fn periodic_source_key(s: PeriodicWallpaperSource) -> &'static str {
    match s {
        PeriodicWallpaperSource::RandomAll => "Random from all history",
        PeriodicWallpaperSource::RandomFavorites => "Random from favorites",
    }
}

impl PeriodicWallpaperSource {
    pub fn label(self, language: LanguagePreference, system_locale: &str) -> (r: &'static str)
        ensures
            r@ == translation(resolve(language, system_locale@), periodic_source_key(self)@),
    {
        match self {
            PeriodicWallpaperSource::RandomAll => language.t(
                system_locale,
                "Random from all history",
            ),
            PeriodicWallpaperSource::RandomFavorites => language.t(
                system_locale,
                "Random from favorites",
            ),
        }
    }
}

/// Default hour of the daily automatic wallpaper.
pub fn default_auto_wallpaper_hour() -> (r: u8)
    ensures
        r == 8,
{
    8
}

/// Default repeat interval of the periodic task, in minutes.
pub fn default_periodic_interval_minutes() -> (r: u16)
    ensures
        r == 60,
{
    60
}

/// By default the first periodic run of a day uses the newest wallpaper.
pub fn default_periodic_daily_first_latest() -> (r: bool)
    ensures
        r,
{
    true
}

/// By default there is no tray icon and no background mode.
pub fn default_background_resident_enabled() -> (r: bool)
    ensures
        !r,
{
    false
}

/// Shortest repeat interval of the periodic task, in minutes.
pub const MIN_PERIODIC_INTERVAL_MINUTES: u16 = 1;

/// Longest repeat interval of the periodic task (23 h 59 min), in minutes.
pub const MAX_PERIODIC_INTERVAL_MINUTES: u16 = 1439;

/// `interval` clamped to the supported range.
pub open spec fn clamp_interval(interval: int) -> int {
    if interval < MIN_PERIODIC_INTERVAL_MINUTES {
        MIN_PERIODIC_INTERVAL_MINUTES as int
    } else if interval > MAX_PERIODIC_INTERVAL_MINUTES {
        MAX_PERIODIC_INTERVAL_MINUTES as int
    } else {
        interval
    }
}

/// `interval_minutes` clamped to the supported range.
pub fn normalized_interval(interval_minutes: u16) -> (r: u16)
    ensures
        r == clamp_interval(interval_minutes as int),
{
    if interval_minutes < MIN_PERIODIC_INTERVAL_MINUTES {
        MIN_PERIODIC_INTERVAL_MINUTES
    } else if interval_minutes > MAX_PERIODIC_INTERVAL_MINUTES {
        MAX_PERIODIC_INTERVAL_MINUTES
    } else {
        interval_minutes
    }
}

/// Persisted application settings.
#[derive(Debug)]
pub struct AppSettings {
    /// Download folder chosen by the user; the default folder when `None`.
    pub download_dir: Option<String>,
    pub theme_preference: ThemePreference,
    pub language: LanguagePreference,
    pub wallpaper_target: WallpaperTarget,
    pub download_resolution: DownloadResolution,
    /// Keep a tray icon and run in the background.
    pub background_resident_enabled: bool,
    /// Start with Windows.
    pub startup_enabled: bool,
    /// Change the wallpaper daily.
    pub auto_wallpaper_enabled: bool,
    pub auto_wallpaper_source: AutoWallpaperSource,
    /// Hour (0 to 23) of the daily change.
    pub auto_wallpaper_hour: u8,
    /// Minute (0 to 59) of the daily change.
    pub auto_wallpaper_minute: u8,
    /// Quit after the daily change succeeded.
    pub auto_wallpaper_exit_after_done: bool,
    /// Day of the last daily change.
    pub last_auto_wallpaper_date: Option<Date>,
    /// The periodic Windows task is registered.
    pub periodic_task_enabled: bool,
    /// Repeat interval of the periodic task, in minutes (1 to 1439).
    pub periodic_interval_minutes: u16,
    /// The first periodic run of a day uses the newest wallpaper.
    pub periodic_daily_first_latest: bool,
    pub periodic_wallpaper_source: PeriodicWallpaperSource,
    /// Day the newest wallpaper was last used by the periodic task.
    pub last_periodic_latest_date: Option<Date>,
}

/// The default settings.
pub open spec fn default_settings_hold(s: AppSettings) -> bool {
    &&& s.download_dir is None
    &&& s.theme_preference == ThemePreference::System
    &&& s.language == LanguagePreference::System
    &&& s.wallpaper_target == WallpaperTarget::All
    &&& s.download_resolution == DownloadResolution::FourK
    &&& !s.background_resident_enabled
    &&& !s.startup_enabled
    &&& !s.auto_wallpaper_enabled
    &&& s.auto_wallpaper_source == AutoWallpaperSource::Latest
    &&& s.auto_wallpaper_hour == 8
    &&& s.auto_wallpaper_minute == 0
    &&& !s.auto_wallpaper_exit_after_done
    &&& s.last_auto_wallpaper_date is None
    &&& !s.periodic_task_enabled
    &&& s.periodic_interval_minutes == 60
    &&& s.periodic_daily_first_latest
    &&& s.periodic_wallpaper_source == PeriodicWallpaperSource::RandomAll
    &&& s.last_periodic_latest_date is None
}

impl Default for AppSettings {
    fn default() -> (r: Self)
        ensures
            default_settings_hold(r),
    {
        AppSettings {
            download_dir: None,
            theme_preference: ThemePreference::default(),
            language: LanguagePreference::default(),
            wallpaper_target: WallpaperTarget::default(),
            download_resolution: DownloadResolution::default(),
            background_resident_enabled: default_background_resident_enabled(),
            startup_enabled: false,
            auto_wallpaper_enabled: false,
            auto_wallpaper_source: AutoWallpaperSource::default(),
            auto_wallpaper_hour: default_auto_wallpaper_hour(),
            auto_wallpaper_minute: 0,
            auto_wallpaper_exit_after_done: false,
            last_auto_wallpaper_date: None,
            periodic_task_enabled: false,
            periodic_interval_minutes: default_periodic_interval_minutes(),
            periodic_daily_first_latest: default_periodic_daily_first_latest(),
            periodic_wallpaper_source: PeriodicWallpaperSource::default(),
            last_periodic_latest_date: None,
        }
    }
}

/// Minutes after midnight of the daily change.
pub open spec fn scheduled_minutes(s: AppSettings) -> int {
    s.auto_wallpaper_hour * 60 + s.auto_wallpaper_minute
}

pub open spec fn same_optional_day(a: Option<Date>, day: Date) -> bool {
    a matches Some(d) && d@ == day@
}

/// The daily automatic wallpaper should run: it is enabled, no run is
/// under way, it has not run on `today`, and the time of day
/// (`now_minutes` after midnight) has reached the scheduled time.
pub open spec fn auto_wallpaper_is_due(s: AppSettings, running: bool, today: Date, now_minutes: int) -> bool {
    s.auto_wallpaper_enabled && !running && !same_optional_day(s.last_auto_wallpaper_date, today)
        && now_minutes >= scheduled_minutes(s)
}

/// When an option of the automatic wallpaper changes after today's time has
/// passed, today counts as done: the change does not trigger a catch-up run
/// later today.
pub proof fn lemma_no_catch_up_after_change(before: AppSettings, after: AppSettings, today: Date, now: int, later: int)
    requires
        now > scheduled_minutes(before),
        after.last_auto_wallpaper_date == Some(today),
        settings_except_auto_date_unchanged(before, after),
    ensures
        !auto_wallpaper_is_due(after, false, today, later),
{
}

/// A scheduled run that has succeeded is not due again the same day.
pub proof fn lemma_done_run_not_due_again(s: AppSettings, today: Date, now: int)
    requires
        s.last_auto_wallpaper_date == Some(today),
    ensures
        !auto_wallpaper_is_due(s, false, today, now),
{
}

impl AppSettings {
    /// The periodic interval clamped to the supported range.
    pub fn normalized_periodic_interval_minutes(&self) -> (r: u16)
        ensures
            r == clamp_interval(self.periodic_interval_minutes as int),
    {
        normalized_interval(self.periodic_interval_minutes)
    }

    /// Whether the daily automatic wallpaper should run now: it is enabled,
    /// no run is under way, it has not run today and the scheduled time of
    /// day has come (`now_minutes` is minutes after midnight).
    pub fn auto_wallpaper_due(&self, running: bool, today: Date, now_minutes: u16) -> (r: bool)
        ensures
            r == auto_wallpaper_is_due(*self, running, today, now_minutes as int),
    {
        if !self.auto_wallpaper_enabled {
            return false;
        }
        let ran_today = match self.last_auto_wallpaper_date {
            Some(d) => d.same_day(&today),
            None => false,
        };
        if running || ran_today {
            return false;
        }
        let scheduled: u16 = self.auto_wallpaper_hour as u16 * 60 + self.auto_wallpaper_minute as u16;
        now_minutes >= scheduled
    }

    /// After the user changes an automatic wallpaper option: when today's
    /// time has already passed, today counts as done (no immediate catch-up
    /// run); otherwise today is open again. Returns whether the change
    /// should run at once (the scheduled minute is the current one).
    pub fn reopen_today_after_change(&mut self, today: Date, now_minutes: u16) -> (r: bool)
        ensures
            now_minutes > scheduled_minutes(*old(self)) ==> final(self).last_auto_wallpaper_date
                == Some(today) && !r,
            now_minutes <= scheduled_minutes(*old(self)) ==> final(self).last_auto_wallpaper_date is None
                && r == (now_minutes == scheduled_minutes(*old(self))),
            settings_except_auto_date_unchanged(*old(self), *final(self)),
    {
        let scheduled: u16 = self.auto_wallpaper_hour as u16 * 60 + self.auto_wallpaper_minute as u16;
        if now_minutes > scheduled {
            self.last_auto_wallpaper_date = Some(today);
            false
        } else {
            self.last_auto_wallpaper_date = None;
            now_minutes == scheduled
        }
    }

    /// After an automatic wallpaper change ended: when it was the scheduled
    /// run of `auto_date` and it succeeded, that day counts as done. Returns
    /// whether the program should quit now (a successful scheduled run while
    /// "quit when done" is on).
    pub fn finish_auto_wallpaper(&mut self, auto_date: Option<Date>, succeeded: bool) -> (quit: bool)
        ensures
            quit == (auto_date is Some && succeeded && old(self).auto_wallpaper_exit_after_done),
            auto_date is Some && succeeded ==> final(self).last_auto_wallpaper_date == auto_date,
            !(auto_date is Some && succeeded) ==> final(self).last_auto_wallpaper_date == old(
                self,
            ).last_auto_wallpaper_date,
            settings_except_auto_date_unchanged(*old(self), *final(self)),
    {
        let quit = auto_date.is_some() && succeeded && self.auto_wallpaper_exit_after_done;
        if succeeded {
            if let Some(d) = auto_date {
                self.last_auto_wallpaper_date = Some(d);
            }
        }
        quit
    }

    /// Sets the time of the daily change, clamping the hour to 23 and the
    /// minute to 59.
    pub fn set_auto_wallpaper_time(&mut self, hour: u8, minute: u8)
        ensures
            final(self).auto_wallpaper_hour == if hour > 23 {
                23
            } else {
                hour
            },
            final(self).auto_wallpaper_minute == if minute > 59 {
                59
            } else {
                minute
            },
            *final(self) == (AppSettings {
                auto_wallpaper_hour: final(self).auto_wallpaper_hour,
                auto_wallpaper_minute: final(self).auto_wallpaper_minute,
                ..*old(self)
            }),
    {
        self.auto_wallpaper_hour = if hour > 23 {
            23
        } else {
            hour
        };
        self.auto_wallpaper_minute = if minute > 59 {
            59
        } else {
            minute
        };
    }
}

/// All fields but `last_auto_wallpaper_date` agree.
pub open spec fn settings_except_auto_date_unchanged(a: AppSettings, b: AppSettings) -> bool {
    &&& a.download_dir == b.download_dir
    &&& a.theme_preference == b.theme_preference
    &&& a.language == b.language
    &&& a.wallpaper_target == b.wallpaper_target
    &&& a.download_resolution == b.download_resolution
    &&& a.background_resident_enabled == b.background_resident_enabled
    &&& a.startup_enabled == b.startup_enabled
    &&& a.auto_wallpaper_enabled == b.auto_wallpaper_enabled
    &&& a.auto_wallpaper_source == b.auto_wallpaper_source
    &&& a.auto_wallpaper_hour == b.auto_wallpaper_hour
    &&& a.auto_wallpaper_minute == b.auto_wallpaper_minute
    &&& a.auto_wallpaper_exit_after_done == b.auto_wallpaper_exit_after_done
    &&& a.periodic_task_enabled == b.periodic_task_enabled
    &&& a.periodic_interval_minutes == b.periodic_interval_minutes
    &&& a.periodic_daily_first_latest == b.periodic_daily_first_latest
    &&& a.periodic_wallpaper_source == b.periodic_wallpaper_source
    &&& a.last_periodic_latest_date == b.last_periodic_latest_date
}

/// The daily change is never due before its time of day (hour and minute),
/// and from that minute on it is due exactly when it is enabled, no run is
/// under way and it has not run today.
pub proof fn lemma_due_from_the_scheduled_minute(s: AppSettings, running: bool, today: Date, now: int)
    ensures
        now < s.auto_wallpaper_hour * 60 + s.auto_wallpaper_minute ==> !auto_wallpaper_is_due(
            s,
            running,
            today,
            now,
        ),
        now >= s.auto_wallpaper_hour * 60 + s.auto_wallpaper_minute ==> (auto_wallpaper_is_due(
            s,
            running,
            today,
            now,
        ) <==> (s.auto_wallpaper_enabled && !running && !(s.last_auto_wallpaper_date matches Some(d)
            && d@ == today@))),
{
}

} // verus!
