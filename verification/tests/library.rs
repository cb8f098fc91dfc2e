use bing_wallpaper_lib::date::Date;
use bing_wallpaper_lib::favorites::{favorite_entries, Favorites};
use bing_wallpaper_lib::library::{
    batch_range_label, check_batch_range, date_limits, download_dir_from_text,
    entries_in_range, eta_seconds, format_duration, is_image_extension, monitor_info,
    monitor_label, pick_auto_wallpaper, reconcile_target, task_state, update_download_urls,
    wallpaper_target_label, years, BatchProgress, BatchRangeError, MonitorInfo, TaskOutcome,
    TaskState,
};
use bing_wallpaper_lib::model::{group_by_month, WallpaperEntry};
use bing_wallpaper_lib::settings::{AutoWallpaperSource, WallpaperTarget};

fn day(year: i32, month: u32, d: u32) -> Date {
    Date::from_ymd_opt(year, month, d).unwrap()
}

fn entry(year: i32, month: u32, d: u32) -> WallpaperEntry {
    WallpaperEntry {
        date: day(year, month, d),
        headline: None,
        title: format!("{year}-{month}-{d}"),
        url: format!("https://example.com/{year}{month}{d}.jpg"),
        copyright_link: None,
    }
}

#[test]
fn date_limits_of_a_list() {
    let entries = vec![entry(2025, 3, 1), entry(2026, 1, 5), entry(2020, 4, 4)];
    assert_eq!(date_limits(&entries), Some((day(2020, 4, 4), day(2026, 1, 5))));
    assert_eq!(date_limits(&Vec::new()), None);
}

#[test]
fn batch_range_checks() {
    let limits = Some((day(2020, 1, 1), day(2026, 7, 1)));
    assert_eq!(check_batch_range(None, None, limits), Err(BatchRangeError::NoRange));
    assert_eq!(
        check_batch_range(Some(day(2026, 2, 1)), Some(day(2026, 1, 1)), limits),
        Err(BatchRangeError::StartAfterEnd)
    );
    assert_eq!(
        check_batch_range(Some(day(2019, 12, 31)), None, limits),
        Err(BatchRangeError::OutsideList)
    );
    assert_eq!(
        check_batch_range(None, Some(day(2026, 7, 2)), limits),
        Err(BatchRangeError::OutsideList)
    );
    assert_eq!(check_batch_range(Some(day(2020, 1, 1)), Some(day(2026, 7, 1)), limits), Ok(()));
    assert_eq!(check_batch_range(Some(day(1990, 1, 1)), None, None), Ok(()));
}

#[test]
fn entries_in_a_date_range() {
    let entries = vec![entry(2026, 7, 3), entry(2026, 7, 2), entry(2026, 7, 1)];
    let picked = entries_in_range(&entries, Some(day(2026, 7, 2)), None);
    assert_eq!(picked.len(), 2);
    assert_eq!(picked[1].date, day(2026, 7, 2));
    let until = entries_in_range(&entries, None, Some(day(2026, 7, 1)));
    assert_eq!(until.len(), 1);
    assert_eq!(entries_in_range(&entries, None, None).len(), 3);
}

#[test]
fn range_labels() {
    assert_eq!(
        batch_range_label(Some(day(2026, 7, 1)), Some(day(2026, 7, 9))).as_deref(),
        Some("日期范围 2026-07-01 至 2026-07-09")
    );
    assert_eq!(
        batch_range_label(Some(day(2026, 7, 1)), None).as_deref(),
        Some("日期范围 2026-07-01 至今")
    );
    assert_eq!(
        batch_range_label(None, Some(day(2026, 7, 9))).as_deref(),
        Some("日期范围 截止 2026-07-09")
    );
    assert_eq!(batch_range_label(None, None), None);
}

#[test]
fn batch_progress_counts_each_wallpaper_once() {
    let mut p = BatchProgress::new(4);
    p.record(TaskOutcome::Skipped);
    p.record(TaskOutcome::NotSubmitted);
    assert_eq!(p.progress_text("收藏"), "批量下载收藏: 2/4（跳过 1，失败 1）");
    assert!(!p.is_finished());
    p.record(TaskOutcome::Done);
    p.record(TaskOutcome::Failed);
    assert!(p.is_finished());
    assert_eq!((p.completed, p.skipped, p.failed), (4, 1, 2));
    assert_eq!(p.summary_text("收藏"), "批量下载收藏完成：共 4，跳过 1，失败 2");
}

#[test]
fn task_states() {
    assert_eq!(task_state("complete"), TaskState::Complete);
    assert_eq!(task_state("error"), TaskState::Error);
    assert_eq!(task_state("removed"), TaskState::Removed);
    assert_eq!(task_state("active"), TaskState::Running);
    assert_eq!(task_state(""), TaskState::Running);
}

#[test]
fn archive_tree_years() {
    let entries = vec![
        entry(2026, 7, 3),
        entry(2025, 12, 2),
        entry(2026, 1, 1),
        entry(2024, 5, 5),
        entry(2025, 1, 9),
    ];
    let groups = group_by_month(&entries);
    let rows = years(&groups);
    let listed: Vec<(i32, Vec<String>)> = rows
        .iter()
        .map(|(y, ps)| (*y, ps.iter().map(|&p| groups[p].key.clone()).collect()))
        .collect();
    assert_eq!(
        listed,
        vec![
            (2026, vec!["2026-07".to_string(), "2026-01".to_string()]),
            (2025, vec!["2025-12".to_string(), "2025-01".to_string()]),
            (2024, vec!["2024-05".to_string()]),
        ]
    );
    assert!(years(&Vec::new()).is_empty());
}

fn monitor(id: &str, index: u32) -> MonitorInfo {
    monitor_info(index, id.to_string(), 0, 0, 1920, 1080)
}

#[test]
fn display_names_and_targets() {
    assert_eq!(monitor_label(0, 1920, 1080), "显示器 1（1920×1080）");
    let monitors = vec![monitor("A", 0), monitor("B", 1)];
    assert_eq!(monitors[1].label, "显示器 2（1920×1080）");
    assert_eq!(monitors[1].width, 1920);
    assert_eq!(wallpaper_target_label(&WallpaperTarget::All, &monitors), "全部显示器");
    assert_eq!(
        wallpaper_target_label(&WallpaperTarget::Monitor("B".to_string()), &monitors),
        "显示器 2（1920×1080）"
    );
    assert_eq!(
        wallpaper_target_label(&WallpaperTarget::Monitor("C".to_string()), &monitors),
        "选定显示器"
    );
    assert_eq!(
        reconcile_target(WallpaperTarget::Monitor("C".to_string()), &monitors),
        WallpaperTarget::All
    );
    assert_eq!(
        reconcile_target(WallpaperTarget::Monitor("A".to_string()), &monitors),
        WallpaperTarget::Monitor("A".to_string())
    );
}

#[test]
fn automatic_wallpaper_pick() {
    let entries = vec![entry(2026, 7, 3), entry(2026, 7, 2), entry(2026, 7, 1)];
    let none = Favorites::new();
    assert_eq!(
        pick_auto_wallpaper(&entries, &none, AutoWallpaperSource::Latest).map(|e| e.date),
        Some(day(2026, 7, 3))
    );
    let any = pick_auto_wallpaper(&entries, &none, AutoWallpaperSource::RandomAll).unwrap();
    assert!(entries.contains(&any));
    assert!(pick_auto_wallpaper(&entries, &none, AutoWallpaperSource::RandomFavorites).is_none());
    let favs = Favorites::from_days(vec![day(2026, 7, 2)]);
    assert_eq!(
        pick_auto_wallpaper(&entries, &favs, AutoWallpaperSource::RandomFavorites).map(|e| e.date),
        Some(day(2026, 7, 2))
    );
    assert!(pick_auto_wallpaper(&Vec::new(), &favs, AutoWallpaperSource::Latest).is_none());
}

#[test]
fn favorites_toggle_and_list() {
    let mut f = Favorites::new();
    assert!(f.toggle(day(2026, 7, 2)));
    assert!(f.toggle(day(2026, 7, 4)));
    assert!(f.contains(&day(2026, 7, 2)));
    assert!(!f.toggle(day(2026, 7, 2)));
    assert!(!f.contains(&day(2026, 7, 2)));
    assert!(f.toggle(day(2026, 7, 1)));
    assert_eq!(f.days_newest_first(), vec![day(2026, 7, 4), day(2026, 7, 1)]);
    let entries = vec![entry(2026, 7, 4), entry(2026, 7, 3), entry(2026, 7, 1)];
    let favs = favorite_entries(&entries, &f);
    assert_eq!(favs.len(), 2);
    assert_eq!(favs[1].date, day(2026, 7, 1));
    let loaded = Favorites::from_days(vec![day(2020, 1, 1), day(2020, 1, 1), day(2021, 1, 1)]);
    assert_eq!(loaded.days_newest_first(), vec![day(2021, 1, 1), day(2020, 1, 1)]);
}

#[test]
fn durations_and_remaining_time() {
    assert_eq!(format_duration(75), "1分15秒");
    assert_eq!(format_duration(3720), "1时02分");
    assert_eq!(format_duration(9), "9秒");
    assert_eq!(format_duration(3600), "1时00分");
    assert_eq!(eta_seconds(1000, 400, 100), Some(6));
    assert_eq!(eta_seconds(1000, 1000, 100), None);
    assert_eq!(eta_seconds(1000, 0, 0), None);
}

#[test]
fn small_helpers() {
    assert_eq!(download_dir_from_text("  D:\\Wallpapers  ").as_deref(), Some("D:\\Wallpapers"));
    assert_eq!(download_dir_from_text("   "), None);
    assert!(is_image_extension("JPG"));
    assert!(is_image_extension("webp"));
    assert!(is_image_extension("Jpeg"));
    assert!(!is_image_extension("gif"));
    assert!(!is_image_extension("jpgx"));
    assert_eq!(update_download_urls("a", Some("b")), vec!["a".to_string(), "b".to_string()]);
    assert_eq!(update_download_urls("a", None), vec!["a".to_string()]);
}
