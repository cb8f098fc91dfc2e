use bing_wallpaper_lib::archive::{
    archive_covers_seed, bing_entry_from_dates, bing_image_to_entry, bing_recent_entries, bing_uhd_url, dedup_by_date,
    finish_fetch, has_new_entry, image_key, is_new_list, local_seed_entries,
    merge_entries_prefer_primary, non_empty_string, reply_size_ok, select_archive,
    zxyongyo_archive_entries, zxyongyo_entry_from_date, zxyongyo_image_to_entry, BingArchiveImage,
    ZxyongyoArchiveImage, MAX_REMOTE_JSON_BYTES,
};
use bing_wallpaper_lib::date::Date;
use bing_wallpaper_lib::model::WallpaperEntry;

fn day(year: i32, month: u32, d: u32) -> Date {
    Date::from_ymd_opt(year, month, d).unwrap()
}

#[test]
fn merges_primary_entries_with_fallback_by_date() {
    let primary = vec![WallpaperEntry {
        date: day(2026, 7, 2),
        headline: Some("中文标题".to_string()),
        title: "中文地点 (© A/B)".to_string(),
        url: "https://cn.bing.com/th?id=OHR.Today_ZH-CN_UHD.jpg".to_string(),
        copyright_link: None,
    }];
    let fallback = vec![
        WallpaperEntry {
            date: day(2026, 7, 2),
            headline: Some("English title".to_string()),
            title: "English place (© A/B)".to_string(),
            url: "https://cn.bing.com/th?id=OHR.Today_EN-US_UHD.jpg".to_string(),
            copyright_link: None,
        },
        WallpaperEntry {
            date: day(2021, 2, 1),
            headline: Some("Old title".to_string()),
            title: "Old place (© A/B)".to_string(),
            url: "https://cn.bing.com/th?id=OHR.Old_ZH-CN_UHD.jpg".to_string(),
            copyright_link: None,
        },
    ];

    let entries = merge_entries_prefer_primary(primary, fallback);
    assert_eq!(entries.len(), 2);
    assert_eq!(entries[0].date, day(2026, 7, 2));
    assert_eq!(entries[0].headline.as_deref(), Some("中文标题"));
    assert!(entries[0].url.contains("_ZH-CN"));
    assert_eq!(entries[1].date, day(2021, 2, 1));
    assert_eq!(entries[1].headline.as_deref(), Some("Old title"));
}

#[test]
fn dedups_duplicate_dates_keeping_first() {
    let entries = dedup_by_date(vec![
        WallpaperEntry {
            date: day(2025, 4, 10),
            headline: Some("A".to_string()),
            title: "A".to_string(),
            url: "https://example.com/a.jpg".to_string(),
            copyright_link: None,
        },
        WallpaperEntry {
            date: day(2025, 4, 10),
            headline: Some("B".to_string()),
            title: "B".to_string(),
            url: "https://example.com/b.jpg".to_string(),
            copyright_link: None,
        },
    ]);
    assert_eq!(entries.len(), 1);
    assert_eq!(entries[0].url, "https://example.com/a.jpg");
}

#[test]
fn converts_zxyongyo_archive_image_to_entry() {
    let image = ZxyongyoArchiveImage {
        date: "2026-07-04".to_string(),
        title: "紫色花海".to_string(),
        copyright: "瓦朗索勒高原的薰衣草行，普罗旺斯，法国 (© Robert Harding/Shutterstock)"
            .to_string(),
        url_4k: "https://example.com/lavender-4k.jpg".to_string(),
    };

    let entry = zxyongyo_image_to_entry(image).unwrap();
    assert_eq!(entry.date, day(2026, 7, 4));
    assert_eq!(entry.headline.as_deref(), Some("紫色花海"));
    assert!(entry.title.contains("瓦朗索勒高原"));
    assert_eq!(entry.url, "https://example.com/lavender-4k.jpg");
}

#[test]
fn converts_bing_archive_image_to_entry() {
    let image = BingArchiveImage {
        startdate: "20260713".to_string(),
        enddate: Some("20260714".to_string()),
        urlbase: "/th?id=OHR.NavajoSandstone_ZH-CN5009673011".to_string(),
        copyright: "羚羊峡谷，纳瓦霍族保留地，亚利桑那州，美国 (© Mark Skalny/Getty Images)"
            .to_string(),
        copyrightlink: Some("https://www.bing.com/search?q=羚羊峡谷".to_string()),
        title: "为摇滚而生".to_string(),
    };

    let entry = bing_image_to_entry(image).unwrap();
    assert_eq!(entry.date, day(2026, 7, 14));
    assert_eq!(entry.headline.as_deref(), Some("为摇滚而生"));
    assert!(entry
        .url
        .contains("OHR.NavajoSandstone_ZH-CN5009673011_UHD.jpg"));
    assert!(entry.url.contains("w=3840&h=2160"));
}

#[test]
fn official_recent_entries_override_local_seed_by_date() {
    let recent = vec![WallpaperEntry {
        date: day(2026, 7, 13),
        headline: Some("新标题".to_string()),
        title: "新地点 (© Bing)".to_string(),
        url: "https://example.com/new.jpg".to_string(),
        copyright_link: None,
    }];
    let seed = vec![WallpaperEntry {
        date: day(2026, 7, 13),
        headline: None,
        title: "旧地点 (© Cache)".to_string(),
        url: "https://example.com/old.jpg".to_string(),
        copyright_link: None,
    }];

    let entries = merge_entries_prefer_primary(recent, seed);
    assert_eq!(entries.len(), 1);
    assert_eq!(entries[0].headline.as_deref(), Some("新标题"));
    assert_eq!(entries[0].url, "https://example.com/new.jpg");
}

#[test]
fn keeps_archive_date_when_official_api_is_one_day_early() {
    let recent = vec![WallpaperEntry {
        date: day(2026, 7, 4),
        headline: Some("紫色花海".to_string()),
        title: "瓦朗索勒高原的薰衣草行，普罗旺斯，法国 (© Robert Harding/Shutterstock)"
            .to_string(),
        url: "https://cn.bing.com/th?id=OHR.LavenderRows_ZH-CN0676810895_UHD.jpg&rf=LaDigue_UHD.jpg&pid=hp&w=3840&h=2160&rs=1&c=4".to_string(),
        copyright_link: None,
    }];
    let fallback = vec![WallpaperEntry {
        date: day(2026, 7, 5),
        headline: Some("紫色花海".to_string()),
        title: "瓦朗索勒高原的薰衣草行，普罗旺斯，法国 (© Robert Harding/Shutterstock)"
            .to_string(),
        url: "https://cn.bing.com/th?id=OHR.LavenderRows_ZH-CN0676810895_UHD.jpg&rf=LaDigue_UHD.jpg&pid=hp&w=3840&h=2160&rs=1&c=4".to_string(),
        copyright_link: None,
    }];

    let entries = merge_entries_prefer_primary(recent, fallback);
    assert_eq!(entries.len(), 1);
    assert_eq!(entries[0].date, day(2026, 7, 5));
    assert_eq!(entries[0].date_heading(), "2026-07-05 紫色花海");
}

#[test]
fn bundled_archive_backfills_a_date_missing_from_cache() {
    let make_entry = |d: u32, image: &str| WallpaperEntry {
        date: day(2020, 4, d),
        headline: None,
        title: format!("2020-04-{d:02}"),
        url: format!("https://cn.bing.com/th?id=OHR.{image}_ZH-CN_UHD.jpg"),
        copyright_link: None,
    };
    let cached = vec![make_entry(3, "April03"), make_entry(5, "April05")];
    let bundled = vec![
        make_entry(3, "April03"),
        make_entry(4, "QingmingCandle2020"),
        make_entry(5, "April05"),
    ];

    let entries = merge_entries_prefer_primary(cached, bundled);
    assert_eq!(entries.len(), 3);
    assert!(entries.iter().any(|entry| entry.date == day(2020, 4, 4)));
}

#[test]
fn rejects_archive_that_drops_historical_coverage() {
    let make_entry = |d: u32| WallpaperEntry {
        date: day(2026, 1, d),
        headline: None,
        title: format!("Wallpaper {d}"),
        url: format!("https://example.com/{d}.jpg"),
        copyright_link: None,
    };
    let seed: Vec<_> = (1..=10).map(make_entry).collect();
    let complete: Vec<_> = (1..=10).map(make_entry).collect();
    let truncated: Vec<_> = (5..=10).map(make_entry).collect();

    assert!(archive_covers_seed(&complete, &seed));
    assert!(!archive_covers_seed(&truncated, &seed));
}

fn plain(year: i32, month: u32, d: u32, url: &str) -> WallpaperEntry {
    WallpaperEntry {
        date: day(year, month, d),
        headline: None,
        title: format!("{year}-{month}-{d}"),
        url: url.to_string(),
        copyright_link: None,
    }
}

#[test]
fn image_keys_are_read_after_ohr() {
    let e = plain(2026, 7, 4, "https://cn.bing.com/th?id=OHR.LavenderRows_ZH-CN0676810895_UHD.jpg");
    assert_eq!(image_key(&e).as_deref(), Some("LavenderRows"));
    let f = plain(2026, 7, 4, "https://cn.bing.com/th?id=OHR.Seal&pid=hp");
    assert_eq!(image_key(&f).as_deref(), Some("Seal"));
    let g = plain(2026, 7, 4, "https://example.com/a.jpg");
    assert_eq!(image_key(&g), None);
    let h = plain(2026, 7, 4, "https://cn.bing.com/th?id=OHR._x");
    assert_eq!(image_key(&h), None);
}

#[test]
fn merged_list_is_newest_first_with_one_entry_per_day() {
    let primary = vec![
        plain(2026, 7, 3, "https://cn.bing.com/th?id=OHR.C_ZH"),
        plain(2026, 7, 1, "https://cn.bing.com/th?id=OHR.A2_ZH"),
        plain(2026, 7, 3, "https://cn.bing.com/th?id=OHR.C2_ZH"),
    ];
    let fallback = vec![
        plain(2026, 6, 30, "https://cn.bing.com/th?id=OHR.Z_ZH"),
        plain(2026, 7, 1, "https://cn.bing.com/th?id=OHR.A_ZH"),
        plain(2026, 7, 2, "https://cn.bing.com/th?id=OHR.B_ZH"),
    ];
    let merged = merge_entries_prefer_primary(primary, fallback);
    let days: Vec<u32> = merged.iter().map(|e| e.date.day()).collect();
    assert_eq!(days, vec![3, 2, 1, 30]);
    assert_eq!(merged[0].url, "https://cn.bing.com/th?id=OHR.C_ZH");
    assert_eq!(merged[2].url, "https://cn.bing.com/th?id=OHR.A2_ZH");
}

#[test]
fn newest_day_decides_whether_something_is_new() {
    let cached = vec![plain(2026, 7, 3, "a"), plain(2026, 7, 1, "b")];
    let newer = vec![plain(2026, 7, 4, "c")];
    let same = vec![plain(2026, 7, 3, "d"), plain(2020, 1, 1, "e")];
    assert!(has_new_entry(&cached, &newer));
    assert!(!has_new_entry(&cached, &same));
    assert!(!has_new_entry(&cached, &cached));
    assert!(has_new_entry(&Vec::new(), &newer));
    assert!(!has_new_entry(&cached, &Vec::new()));
    assert!(!has_new_entry(&Vec::new(), &Vec::new()));
}

#[test]
fn uhd_addresses_of_bing_records() {
    assert_eq!(
        bing_uhd_url(" /th?id=OHR.X_ZH-CN1 "),
        "https://cn.bing.com/th?id=OHR.X_ZH-CN1_UHD.jpg&rf=LaDigue_UHD.jpg&pid=hp&w=3840&h=2160&rs=1&c=4"
    );
    assert_eq!(
        bing_uhd_url("th?id=OHR.X"),
        "https://cn.bing.com/th?id=OHR.X_UHD.jpg&rf=LaDigue_UHD.jpg&pid=hp&w=3840&h=2160&rs=1&c=4"
    );
    assert_eq!(
        bing_uhd_url("https://www.bing.com/th?id=OHR.X"),
        "https://www.bing.com/th?id=OHR.X_UHD.jpg&rf=LaDigue_UHD.jpg&pid=hp&w=3840&h=2160&rs=1&c=4"
    );
}

#[test]
fn blank_texts_become_none() {
    assert_eq!(non_empty_string("  紫色花海 ".to_string()).as_deref(), Some("紫色花海"));
    assert_eq!(non_empty_string(" \t ".to_string()), None);
    assert_eq!(non_empty_string(String::new()), None);
}

#[test]
fn bing_record_without_end_date_is_dated_the_next_day() {
    let image = BingArchiveImage {
        startdate: "20261231".to_string(),
        enddate: None,
        urlbase: "/th?id=OHR.Y".to_string(),
        copyright: " Somewhere (© Someone) ".to_string(),
        copyrightlink: Some("  ".to_string()),
        title: "  ".to_string(),
    };
    let entry = bing_image_to_entry(image).unwrap();
    assert_eq!(entry.date, day(2027, 1, 1));
    assert_eq!(entry.headline, None);
    assert_eq!(entry.copyright_link, None);
    assert_eq!(entry.title, "Somewhere (© Someone)");
    let broken = BingArchiveImage {
        startdate: "2026-07-13".to_string(),
        enddate: Some("20260714".to_string()),
        urlbase: "/th?id=OHR.Y".to_string(),
        copyright: String::new(),
        copyrightlink: None,
        title: String::new(),
    };
    assert!(bing_image_to_entry(broken).is_none());
}

#[test]
fn archive_records_are_read_deduplicated_and_sorted() {
    let image = |date: &str, url: &str| ZxyongyoArchiveImage {
        date: date.to_string(),
        title: "t".to_string(),
        copyright: "c".to_string(),
        url_4k: url.to_string(),
    };
    let entries = zxyongyo_archive_entries(vec![
        image("2026-07-03", "a"),
        image("2026-07-04", "b"),
        image("not a date", "x"),
        image("2026-07-03", "c"),
    ]);
    let urls: Vec<&str> = entries.iter().map(|e| e.url.as_str()).collect();
    assert_eq!(urls, vec!["b", "a"]);
    assert!(zxyongyo_archive_entries(vec![image("bad", "x")]).is_empty());
}

#[test]
fn bing_windows_are_merged_or_refused_when_empty() {
    let image = |start: &str, url: &str| BingArchiveImage {
        startdate: start.to_string(),
        enddate: None,
        urlbase: url.to_string(),
        copyright: "c".to_string(),
        copyrightlink: None,
        title: "t".to_string(),
    };
    let recent = bing_recent_entries(vec![
        image("20260701", "/a"),
        image("20260702", "/b"),
        image("20260701", "/c"),
    ])
    .unwrap();
    assert_eq!(recent.len(), 2);
    assert_eq!(recent[0].date, day(2026, 7, 3));
    assert!(recent[1].url.starts_with("https://cn.bing.com/a_UHD.jpg"));
    assert!(bing_recent_entries(vec![image("x", "/a")]).is_none());
    assert!(bing_recent_entries(Vec::new()).is_none());
}

#[test]
fn local_history_prefers_the_cache_over_the_snapshot() {
    let bundled = vec![plain(2020, 4, 3, "b3"), plain(2020, 4, 4, "b4")];
    let cached = vec![plain(2020, 4, 4, "c4")];
    let seed = local_seed_entries(Some(cached), bundled);
    let urls: Vec<&str> = seed.iter().map(|e| e.url.as_str()).collect();
    assert_eq!(urls, vec!["c4", "b3"]);
    let only_bundled = local_seed_entries(Some(Vec::new()), vec![plain(2020, 4, 3, "b3")]);
    assert_eq!(only_bundled.len(), 1);
    assert_eq!(local_seed_entries(None, vec![plain(2020, 4, 3, "b3")])[0].url, "b3");
}

#[test]
fn downloaded_archive_extends_history_only_when_it_covers_it() {
    let seed = vec![plain(2020, 1, 1, "s1"), plain(2020, 1, 2, "s2")];
    let good = vec![plain(2019, 12, 31, "g0"), plain(2020, 1, 2, "g2")];
    let late = vec![plain(2020, 1, 2, "l2"), plain(2020, 1, 3, "l3")];
    let chosen = select_archive(Some(good), seed.clone());
    let urls: Vec<&str> = chosen.iter().map(|e| e.url.as_str()).collect();
    assert_eq!(urls, vec!["g2", "s1", "g0"]);
    assert_eq!(select_archive(Some(late), seed.clone())[0].url, "s1");
    assert_eq!(select_archive(None, seed.clone())[0].url, "s1");
    assert!(archive_covers_seed(&vec![plain(2020, 1, 1, "x")], &Vec::new()));
    assert!(!archive_covers_seed(&Vec::new(), &Vec::new()));
}

#[test]
fn finished_fetch_merges_or_falls_back() {
    let archive = vec![plain(2020, 1, 1, "a")];
    let merged = finish_fetch(Some(vec![plain(2020, 1, 2, "r")]), archive.clone()).unwrap();
    assert_eq!(merged.len(), 2);
    assert_eq!(merged[0].url, "r");
    assert_eq!(finish_fetch(None, archive.clone()).unwrap()[0].url, "a");
    assert!(finish_fetch(None, Vec::new()).is_none());
}

#[test]
fn bing_record_takes_its_end_date_or_the_day_after_its_start() {
    let image = BingArchiveImage {
        startdate: "ignored".to_string(),
        enddate: None,
        urlbase: "/th?id=OHR.Cliffs_EN-US123".to_string(),
        copyright: " Cliffs (© A) ".to_string(),
        copyrightlink: Some(" https://www.bing.com/search?q=cliffs ".to_string()),
        title: " Cliffs ".to_string(),
    };
    let with_end = bing_entry_from_dates(&image, Some(day(2024, 2, 28)), Some(day(2024, 3, 5))).unwrap();
    assert_eq!(with_end.date, day(2024, 3, 5));
    let without_end = bing_entry_from_dates(&image, Some(day(2024, 2, 28)), None).unwrap();
    assert_eq!(without_end.date, day(2024, 2, 29));
    assert_eq!(without_end.title, "Cliffs (© A)");
    assert_eq!(without_end.headline.as_deref(), Some("Cliffs"));
    assert_eq!(
        without_end.copyright_link.as_deref(),
        Some("https://www.bing.com/search?q=cliffs")
    );
    assert!(without_end.url.contains("OHR.Cliffs_EN-US123_UHD.jpg"));
    assert!(bing_entry_from_dates(&image, None, Some(day(2024, 3, 5))).is_none());
}

#[test]
fn archive_record_takes_the_given_date() {
    let image = ZxyongyoArchiveImage {
        date: "not read here".to_string(),
        title: "  ".to_string(),
        copyright: "  Lake (© B) ".to_string(),
        url_4k: " https://example.com/lake-4k.jpg ".to_string(),
    };
    let entry = zxyongyo_entry_from_date(&image, Some(day(2019, 5, 6))).unwrap();
    assert_eq!(entry.date, day(2019, 5, 6));
    assert_eq!(entry.headline, None);
    assert_eq!(entry.title, "Lake (© B)");
    assert_eq!(entry.url, "https://example.com/lake-4k.jpg");
    assert_eq!(entry.copyright_link, None);
    assert!(zxyongyo_entry_from_date(&image, None).is_none());
}

#[test]
fn remote_replies_are_capped_at_thirty_two_mebibytes() {
    assert_eq!(MAX_REMOTE_JSON_BYTES, 32 * 1024 * 1024);
    assert!(reply_size_ok(0));
    assert!(reply_size_ok(32 * 1024 * 1024));
    assert!(!reply_size_ok(32 * 1024 * 1024 + 1));
}

#[test]
fn a_first_download_is_always_new() {
    let fetched = vec![plain(2025, 1, 2, "https://example.com/b.jpg")];
    assert!(is_new_list(&None, &fetched));
    let same = Some(vec![plain(2025, 1, 2, "https://example.com/a.jpg")]);
    assert!(!is_new_list(&same, &fetched));
    let older = Some(vec![plain(2025, 1, 1, "https://example.com/a.jpg")]);
    assert!(is_new_list(&older, &fetched));
}

#[test]
fn a_refresh_never_drops_a_local_day() {
    let seed = vec![plain(2020, 1, 2, "s2")];
    let archive = vec![plain(2020, 1, 1, "a1")];
    assert!(archive_covers_seed(&archive, &seed));
    let chosen = select_archive(Some(archive), seed);
    let finished = finish_fetch(None, chosen).unwrap();
    let urls: Vec<&str> = finished.iter().map(|e| e.url.as_str()).collect();
    assert_eq!(urls, vec!["s2", "a1"]);
    let with_recent = finish_fetch(Some(vec![plain(2020, 1, 3, "r3")]), finished).unwrap();
    let urls: Vec<&str> = with_recent.iter().map(|e| e.url.as_str()).collect();
    assert_eq!(urls, vec!["r3", "s2", "a1"]);
}

#[test]
fn deduplicating_keeps_order_and_settles() {
    let input = vec![
        plain(2025, 1, 3, "a"),
        plain(2025, 1, 1, "b"),
        plain(2025, 1, 3, "c"),
        plain(2025, 1, 2, "d"),
        plain(2025, 1, 1, "e"),
    ];
    let once = dedup_by_date(input);
    let urls: Vec<&str> = once.iter().map(|e| e.url.as_str()).collect();
    assert_eq!(urls, vec!["a", "b", "d"]);
    let twice = dedup_by_date(once.clone());
    assert_eq!(twice, once);
}

#[test]
fn exactly_spelled_dates_always_read() {
    let zx = ZxyongyoArchiveImage {
        date: "2024-02-29".to_string(),
        title: String::new(),
        copyright: String::new(),
        url_4k: String::new(),
    };
    assert_eq!(zxyongyo_image_to_entry(zx).unwrap().date, day(2024, 2, 29));
    let bing = BingArchiveImage {
        startdate: "20240228".to_string(),
        enddate: Some("20240301".to_string()),
        urlbase: "/th?id=OHR.X".to_string(),
        copyright: String::new(),
        copyrightlink: None,
        title: String::new(),
    };
    assert_eq!(bing_image_to_entry(bing).unwrap().date, day(2024, 3, 1));
}
