use bing_wallpaper_lib::date::Date;
use bing_wallpaper_lib::i18n::LanguagePreference;
use bing_wallpaper_lib::settings::{
    default_auto_wallpaper_hour, default_background_resident_enabled,
    default_periodic_daily_first_latest, default_periodic_interval_minutes, normalized_interval,
    AppSettings, AutoWallpaperSource, DownloadResolution, PeriodicWallpaperSource,
    ThemePreference, WallpaperTarget, MAX_PERIODIC_INTERVAL_MINUTES, MIN_PERIODIC_INTERVAL_MINUTES,
};

#[test]
fn periodic_interval_is_clamped_to_supported_range() {
    let mut settings = AppSettings {
        periodic_interval_minutes: 0,
        ..Default::default()
    };
    assert_eq!(settings.normalized_periodic_interval_minutes(), 1);

    settings.periodic_interval_minutes = u16::MAX;
    assert_eq!(settings.normalized_periodic_interval_minutes(), 23 * 60 + 59);
}

#[test]
fn default_settings() {
    let s = AppSettings::default();
    assert_eq!(s.language, LanguagePreference::System);
    assert!(!s.periodic_task_enabled);
    assert_eq!(s.periodic_interval_minutes, 60);
    assert!(s.periodic_daily_first_latest);
    assert_eq!(s.periodic_wallpaper_source, PeriodicWallpaperSource::RandomAll);
    assert_eq!(s.last_periodic_latest_date, None);
    assert!(!s.background_resident_enabled);
    assert_eq!(s.auto_wallpaper_hour, 8);
    assert_eq!(s.download_resolution, DownloadResolution::FourK);
    assert_eq!(s.wallpaper_target, WallpaperTarget::All);
}

fn today() -> Date {
    Date::from_ymd_opt(2026, 7, 18).unwrap()
}

#[test]
fn daily_wallpaper_runs_once_after_its_time() {
    let mut s = AppSettings { auto_wallpaper_enabled: true, ..Default::default() };
    assert!(!s.auto_wallpaper_due(false, today(), 8 * 60 - 1));
    assert!(s.auto_wallpaper_due(false, today(), 8 * 60));
    assert!(!s.auto_wallpaper_due(true, today(), 9 * 60));
    let quit = s.finish_auto_wallpaper(Some(today()), true);
    assert!(!quit);
    assert_eq!(s.last_auto_wallpaper_date, Some(today()));
    assert!(!s.auto_wallpaper_due(false, today(), 23 * 60));
    let tomorrow = Date::from_ymd_opt(2026, 7, 19).unwrap();
    assert!(s.auto_wallpaper_due(false, tomorrow, 8 * 60));
}

#[test]
fn changing_an_option_after_the_time_does_not_catch_up() {
    let mut s = AppSettings { auto_wallpaper_enabled: true, ..Default::default() };
    assert!(!s.reopen_today_after_change(today(), 9 * 60));
    assert_eq!(s.last_auto_wallpaper_date, Some(today()));
    assert!(!s.auto_wallpaper_due(false, today(), 10 * 60));
    assert!(s.reopen_today_after_change(today(), 8 * 60));
    assert_eq!(s.last_auto_wallpaper_date, None);
    assert!(!s.reopen_today_after_change(today(), 7 * 60));
}

#[test]
fn successful_scheduled_run_may_quit() {
    let mut s = AppSettings { auto_wallpaper_exit_after_done: true, ..Default::default() };
    assert!(!s.finish_auto_wallpaper(Some(today()), false));
    assert_eq!(s.last_auto_wallpaper_date, None);
    assert!(!s.finish_auto_wallpaper(None, true));
    assert!(s.finish_auto_wallpaper(Some(today()), true));
    assert_eq!(s.last_auto_wallpaper_date, Some(today()));
}

#[test]
fn auto_wallpaper_time_is_clamped() {
    let mut s = AppSettings::default();
    s.set_auto_wallpaper_time(30, 99);
    assert_eq!((s.auto_wallpaper_hour, s.auto_wallpaper_minute), (23, 59));
    s.set_auto_wallpaper_time(6, 5);
    assert_eq!((s.auto_wallpaper_hour, s.auto_wallpaper_minute), (6, 5));
}

#[test]
fn option_labels() {
    assert_eq!(ThemePreference::Dark.label(LanguagePreference::English, ""), "Dark");
    assert_eq!(DownloadResolution::FourK.label(LanguagePreference::English, ""), "4K");
    assert_eq!(DownloadResolution::TwoK.detail(), "2560×1440");
    assert_eq!(DownloadResolution::OneK.status_label(LanguagePreference::English, ""), "1K-1920×1080");
    assert_eq!(
        AutoWallpaperSource::Latest.label(LanguagePreference::English, ""),
        "Latest daily wallpaper"
    );
    assert_eq!(
        PeriodicWallpaperSource::RandomFavorites.label(LanguagePreference::English, ""),
        "Random from favorites"
    );
    assert_eq!(WallpaperTarget::Monitor("\\\\?\\DISPLAY1".to_string()).monitor_id(), Some("\\\\?\\DISPLAY1"));
    assert_eq!(WallpaperTarget::All.monitor_id(), None);
    assert_eq!(DownloadResolution::all().len(), 4);
}

#[test]
fn serde_defaults_of_newer_fields() {
    assert_eq!(default_auto_wallpaper_hour(), 8);
    assert_eq!(default_periodic_interval_minutes(), 60);
    assert!(default_periodic_daily_first_latest());
    assert!(!default_background_resident_enabled());
}

#[test]
fn intervals_are_clamped_between_one_minute_and_a_day() {
    assert_eq!(MIN_PERIODIC_INTERVAL_MINUTES, 1);
    assert_eq!(MAX_PERIODIC_INTERVAL_MINUTES, 1439);
    assert_eq!(normalized_interval(0), 1);
    assert_eq!(normalized_interval(1), 1);
    assert_eq!(normalized_interval(90), 90);
    assert_eq!(normalized_interval(1439), 1439);
    assert_eq!(normalized_interval(1440), 1439);
}
