use bing_wallpaper_lib::date::Date;
use bing_wallpaper_lib::favorites::Favorites;
use bing_wallpaper_lib::model::WallpaperEntry;
use bing_wallpaper_lib::schedule::{
    download_poll_action, record_periodic_run, select_entry, selection_candidates,
    selection_from_pick, Candidates, PollAction, Selection, DOWNLOAD_TIMEOUT_MS,
};
use bing_wallpaper_lib::settings::{AppSettings, PeriodicWallpaperSource};

fn entry(day: u32) -> WallpaperEntry {
    WallpaperEntry {
        date: Date::from_ymd_opt(2026, 7, day).unwrap(),
        headline: Some(format!("wallpaper-{day}")),
        title: format!("title-{day}"),
        url: format!("https://example.com/{day}.jpg"),
        copyright_link: None,
    }
}

#[test]
fn first_successful_run_each_day_uses_latest_entry() {
    let entries = vec![entry(18), entry(17), entry(16)];
    let settings = AppSettings {
        periodic_daily_first_latest: true,
        last_periodic_latest_date: Some(Date::from_ymd_opt(2026, 7, 17).unwrap()),
        ..Default::default()
    };
    let selected = select_entry(
        &entries,
        &Favorites::new(),
        &settings,
        Date::from_ymd_opt(2026, 7, 18).unwrap(),
    )
    .unwrap();
    assert_eq!(selected.entry.date, entries[0].date);
    assert!(selected.used_daily_latest);
}

#[test]
fn empty_favorites_fall_back_to_random_history() {
    let entries = vec![entry(18), entry(17), entry(16)];
    let settings = AppSettings {
        periodic_daily_first_latest: true,
        last_periodic_latest_date: Some(Date::from_ymd_opt(2026, 7, 18).unwrap()),
        periodic_wallpaper_source: PeriodicWallpaperSource::RandomFavorites,
        ..Default::default()
    };
    let selected = select_entry(
        &entries,
        &Favorites::new(),
        &settings,
        Date::from_ymd_opt(2026, 7, 18).unwrap(),
    )
    .unwrap();
    assert!(entries.contains(&selected.entry));
    assert!(!selected.used_daily_latest);
    assert!(selected.fell_back_from_favorites);
}

#[test]
fn random_favorites_only_selects_favorited_entries() {
    let entries = vec![entry(18), entry(17), entry(16)];
    let settings = AppSettings {
        periodic_daily_first_latest: false,
        periodic_wallpaper_source: PeriodicWallpaperSource::RandomFavorites,
        ..Default::default()
    };
    let favorites = Favorites::from_days(vec![entries[1].date]);
    let selected = select_entry(
        &entries,
        &favorites,
        &settings,
        Date::from_ymd_opt(2026, 7, 18).unwrap(),
    )
    .unwrap();
    assert_eq!(selected.entry.date, entries[1].date);
    assert!(!selected.fell_back_from_favorites);
}

#[test]
fn no_entries_means_no_selection() {
    let settings = AppSettings::default();
    assert!(select_entry(
        &Vec::new(),
        &Favorites::new(),
        &settings,
        Date::from_ymd_opt(2026, 7, 18).unwrap()
    )
    .is_none());
}

#[test]
fn candidates_of_each_source() {
    let entries = vec![entry(18), entry(17), entry(16)];
    let today = Date::from_ymd_opt(2026, 7, 18).unwrap();
    let daily = AppSettings::default();
    let c = selection_candidates(&entries, &Favorites::new(), &daily, today);
    assert_eq!(c.positions, vec![0]);
    assert!(c.used_daily_latest);
    let all = AppSettings { periodic_daily_first_latest: false, ..Default::default() };
    let c = selection_candidates(&entries, &Favorites::new(), &all, today);
    assert_eq!(c.positions, vec![0, 1, 2]);
    assert!(!c.used_daily_latest && !c.fell_back_from_favorites);
    let favs = AppSettings {
        periodic_daily_first_latest: false,
        periodic_wallpaper_source: PeriodicWallpaperSource::RandomFavorites,
        ..Default::default()
    };
    let f = Favorites::from_days(vec![entries[2].date, entries[0].date]);
    let c = selection_candidates(&entries, &f, &favs, today);
    assert_eq!(c.positions, vec![0, 2]);
}

#[test]
fn a_drawn_position_becomes_the_selection() {
    let entries = vec![entry(18), entry(17), entry(16)];
    let c = Candidates { positions: vec![1, 2], used_daily_latest: false, fell_back_from_favorites: true };
    let s = selection_from_pick(&entries, &c, 2).unwrap();
    assert_eq!(s.entry.date, entries[2].date);
    assert!(!s.used_daily_latest);
    assert!(s.fell_back_from_favorites);
    assert!(selection_from_pick(&entries, &c, 3).is_none());
}

#[test]
fn unattended_download_waits_finishes_fails_or_times_out() {
    assert_eq!(download_poll_action(0, "complete"), PollAction::Finished);
    assert_eq!(download_poll_action(10, "error"), PollAction::Failed);
    assert_eq!(download_poll_action(10, "removed"), PollAction::Failed);
    assert_eq!(download_poll_action(10, "active"), PollAction::Wait);
    assert_eq!(download_poll_action(10, "waiting"), PollAction::Wait);
    assert_eq!(download_poll_action(DOWNLOAD_TIMEOUT_MS - 1, "paused"), PollAction::Wait);
    assert_eq!(download_poll_action(DOWNLOAD_TIMEOUT_MS, "complete"), PollAction::TimedOut);
}

#[test]
fn only_a_daily_latest_run_is_recorded() {
    let today = Date::from_ymd_opt(2026, 7, 18).unwrap();
    let mut settings = AppSettings {
        periodic_daily_first_latest: true,
        last_periodic_latest_date: Some(Date::from_ymd_opt(2026, 7, 17).unwrap()),
        ..Default::default()
    };
    let random = Selection { entry: entry(16), used_daily_latest: false, fell_back_from_favorites: false };
    assert!(!record_periodic_run(&mut settings, &random, today));
    assert_eq!(settings.last_periodic_latest_date, Some(Date::from_ymd_opt(2026, 7, 17).unwrap()));
    let latest = Selection { entry: entry(18), used_daily_latest: true, fell_back_from_favorites: false };
    assert!(record_periodic_run(&mut settings, &latest, today));
    assert_eq!(settings.last_periodic_latest_date, Some(today));
    assert!(settings.periodic_daily_first_latest);
}
