use bing_wallpaper_lib::date::Date;
use bing_wallpaper_lib::model::{
    clone_opt_string, copyright_prefix, filename_title_part, group_by_month, sort_newest_first,
    trailing_bracket_pair, trim_empty_trailing_brackets, trim_filename_separators, WallpaperEntry,
};
use bing_wallpaper_lib::settings::DownloadResolution;

fn entry_with(year: i32, month: u32, day: u32, title: &str, url: &str) -> WallpaperEntry {
    WallpaperEntry {
        date: Date::from_ymd_opt(year, month, day).unwrap(),
        headline: None,
        title: title.to_string(),
        url: url.to_string(),
        copyright_link: None,
    }
}

fn titled(day: u32, title: &str) -> WallpaperEntry {
    entry_with(2026, 7, day, title, "https://example.com/a.jpg")
}

#[test]
fn file_name_keeps_title_and_location_before_copyright() {
    let entry = titled(2, "埃斯纳神庙穹顶天花板, 埃及 (© Nick Brundle/Getty Images)");
    assert_eq!(entry.file_name(), "2026-07-02_埃斯纳神庙穹顶天花板_埃及.jpg");
}

#[test]
fn file_name_keeps_multiple_chinese_location_parts() {
    let entry = titled(3, "小溪上方的萤火虫，冈山县，日本 (© tdub303/Getty Images)");
    assert_eq!(entry.file_name(), "2026-07-03_小溪上方的萤火虫_冈山县_日本.jpg");
}

#[test]
fn file_name_keeps_multiple_english_location_parts() {
    let entry = titled(
        1,
        "Dungeon Provincial Park, Newfoundland and Labrador, Canada (© Kaitlyn McLachlan/Getty Images)",
    );
    assert_eq!(
        entry.file_name(),
        "2026-07-01_Dungeon Provincial Park_Newfoundland and Labrador_Canada.jpg"
    );
}

#[test]
fn file_name_sanitizes_windows_invalid_chars() {
    let entry = titled(2, "A/B:C*D?E, Somewhere");
    assert_eq!(entry.file_name(), "2026-07-02_A_B_C_D_E_Somewhere.jpg");
}

#[test]
fn file_name_handles_full_width_copyright_marker() {
    let entry = titled(2, "古城遗迹，某地，某国 （© Example/Getty Images）");
    assert_eq!(entry.file_name(), "2026-07-02_古城遗迹_某地_某国.jpg");
}

#[test]
fn file_name_handles_bare_copyright_marker() {
    let entry = titled(4, "海岸灯塔, Maine, USA © Example/Getty Images");
    assert_eq!(entry.file_name(), "2026-07-04_海岸灯塔_Maine_USA.jpg");
}

#[test]
fn file_name_removes_empty_brackets_left_by_copyright_prefix() {
    let entry = titled(5, "湖边森林 (© Example/Getty Images)");
    assert_eq!(entry.file_name(), "2026-07-05_湖边森林.jpg");
}

#[test]
fn file_name_normalizes_dash_pipe_and_bracket_separators() {
    let entry = titled(6, "Sand dunes - Namib-Naukluft Park | Namibia (Africa) (© Example)");
    assert_eq!(
        entry.file_name(),
        "2026-07-06_Sand dunes_Namib_Naukluft Park_Namibia_Africa.jpg"
    );
}

#[test]
fn file_name_falls_back_to_date_when_title_is_only_credit() {
    let entry = titled(7, "(© Example/Getty Images)");
    assert_eq!(entry.file_name(), "2026-07-07.jpg");
}

#[test]
fn file_name_trims_separators_after_length_limit() {
    let entry = titled(8, &format!("{}，地点", "山".repeat(120)));
    assert_eq!(entry.file_name(), format!("2026-07-08_{}.jpg", "山".repeat(120)));
}

#[test]
fn file_names_never_hold_characters_windows_refuses() {
    let entry = titled(9, "a<b>c:d\"e/f\\g|h?i*j\u{7}k");
    let name = entry.file_name();
    assert_eq!(name, "2026-07-09_a_b_c_d_e_f_g_h_i_j_k.jpg");
    let title_part = &name[11..name.len() - 4];
    assert!(!title_part.chars().any(|c| "<>:\"/\\|?*".contains(c) || c.is_control()));
}

#[test]
fn thumbnail_address_shrinks_modern_images_only() {
    let modern = entry_with(
        2026,
        7,
        4,
        "x",
        "https://cn.bing.com/th?id=OHR.A_UHD.jpg&rf=LaDigue_UHD.jpg&pid=hp&w=3840&h=2160&rs=1&c=4",
    );
    assert_eq!(
        modern.thumbnail_url(),
        "https://cn.bing.com/th?id=OHR.A_UHD.jpg&rf=LaDigue_UHD.jpg&pid=hp&w=320&h=180&rs=1&c=4"
    );
    let old = entry_with(2019, 1, 1, "x", "https://example.com/old.jpg");
    assert_eq!(old.thumbnail_url(), "https://example.com/old.jpg");
}

#[test]
fn download_address_follows_the_resolution() {
    let e = entry_with(
        2026,
        7,
        4,
        "x",
        "https://cn.bing.com/th?id=OHR.A_UHD.jpg&pid=hp&w=3840&h=2160&rs=1&c=4",
    );
    assert_eq!(
        e.download_url(DownloadResolution::FourK),
        "https://cn.bing.com/th?id=OHR.A_UHD.jpg&pid=hp&w=3840&h=2160&rs=1&c=4"
    );
    assert_eq!(
        e.download_url(DownloadResolution::Original),
        "https://cn.bing.com/th?id=OHR.A_UHD.jpg&pid=hp&rs=1&c=4"
    );
    assert_eq!(
        e.download_url(DownloadResolution::TwoK),
        "https://cn.bing.com/th?id=OHR.A_UHD.jpg&pid=hp&w=2560&h=1440&rs=1&c=4"
    );
    assert_eq!(
        e.download_url(DownloadResolution::OneK),
        "https://cn.bing.com/th?id=OHR.A_UHD.jpg&pid=hp&w=1920&h=1080&rs=1&c=4"
    );
    let plain = entry_with(2019, 1, 1, "x", "https://example.com/old.jpg");
    assert_eq!(plain.download_url(DownloadResolution::OneK), "https://example.com/old.jpg");
}

#[test]
fn date_heading_adds_the_headline() {
    let mut e = titled(5, "x");
    assert_eq!(e.date_heading(), "2026-07-05");
    e.headline = Some("紫色花海".to_string());
    assert_eq!(e.date_heading(), "2026-07-05 紫色花海");
}

#[test]
fn sorting_is_newest_first_and_stable() {
    let entries = vec![
        entry_with(2025, 1, 1, "a", "u1"),
        entry_with(2026, 7, 4, "b", "u2"),
        entry_with(2025, 1, 1, "c", "u3"),
        entry_with(2026, 1, 31, "d", "u4"),
    ];
    let sorted = sort_newest_first(&entries);
    let titles: Vec<&str> = sorted.iter().map(|e| e.title.as_str()).collect();
    assert_eq!(titles, vec!["b", "d", "a", "c"]);
}

#[test]
fn groups_by_month_newest_first() {
    let entries = vec![
        entry_with(2025, 12, 30, "a", "u1"),
        entry_with(2026, 1, 2, "b", "u2"),
        entry_with(2025, 12, 31, "c", "u3"),
        entry_with(2026, 1, 1, "d", "u4"),
    ];
    let groups = group_by_month(&entries);
    assert_eq!(groups.len(), 2);
    assert_eq!(groups[0].key, "2026-01");
    assert_eq!((groups[0].year, groups[0].month), (2026, 1));
    let first: Vec<&str> = groups[0].entries.iter().map(|e| e.title.as_str()).collect();
    assert_eq!(first, vec!["b", "d"]);
    assert_eq!(groups[1].key, "2025-12");
    let second: Vec<&str> = groups[1].entries.iter().map(|e| e.title.as_str()).collect();
    assert_eq!(second, vec!["c", "a"]);
}

fn chars(s: &str) -> Vec<char> {
    s.chars().collect()
}

fn text(v: Vec<char>) -> String {
    v.into_iter().collect()
}

#[test]
fn copyright_prefix_stops_at_the_earliest_marker() {
    assert_eq!(text(copyright_prefix(&chars("湖泊 (© A/B)"))), "湖泊 ");
    assert_eq!(text(copyright_prefix(&chars("湖泊（© A/B）"))), "湖泊");
    assert_eq!(text(copyright_prefix(&chars("Lake ( © A)"))), "Lake ");
    assert_eq!(text(copyright_prefix(&chars("Lake © A (© B)"))), "Lake ");
    assert_eq!(text(copyright_prefix(&chars("No credit"))), "No credit");
}

#[test]
fn trailing_brackets_are_recognised_by_their_closing_character() {
    assert_eq!(trailing_bracket_pair(&chars("a (b)")), Some(('(', ')')));
    assert_eq!(trailing_bracket_pair(&chars("a（b）")), Some(('（', '）')));
    assert_eq!(trailing_bracket_pair(&chars("a [b]")), Some(('[', ']')));
    assert_eq!(trailing_bracket_pair(&chars("a【b】")), Some(('【', '】')));
    assert_eq!(trailing_bracket_pair(&chars("a b")), None);
    assert_eq!(trailing_bracket_pair(&chars("")), None);
}

#[test]
fn empty_trailing_brackets_are_removed_repeatedly() {
    assert_eq!(text(trim_empty_trailing_brackets(&chars(" Lake ( ) [] "))), "Lake");
    assert_eq!(text(trim_empty_trailing_brackets(&chars("湖泊（）"))), "湖泊");
    assert_eq!(text(trim_empty_trailing_brackets(&chars("Lake (north)"))), "Lake (north)");
    assert_eq!(text(trim_empty_trailing_brackets(&chars("Lake )"))), "Lake )");
}

#[test]
fn separators_are_trimmed_from_both_ends() {
    assert_eq!(text(trim_filename_separators(&chars(" _-Lake, Hills_. "))), "Lake, Hills");
    assert_eq!(text(trim_filename_separators(&chars("【湖泊】"))), "湖泊");
    assert_eq!(text(trim_filename_separators(&chars("._-"))), "");
}

#[test]
fn title_part_normalises_separators_and_drops_the_credit() {
    assert_eq!(
        text(filename_title_part("Lavender rows, Valensole - Provence (© A/B)")),
        "Lavender rows_Valensole_Provence"
    );
    assert_eq!(text(filename_title_part("瓦朗索勒，普罗旺斯、法国 （© A）")), "瓦朗索勒_普罗旺斯_法国");
    assert_eq!(text(filename_title_part("a:b?c")), "a_b_c");
    assert_eq!(text(filename_title_part("(© Only credit)")), "");
    let long = "x".repeat(200);
    assert_eq!(filename_title_part(&long).len(), 120);
}

#[test]
fn optional_strings_clone_to_the_same_value() {
    assert_eq!(clone_opt_string(&Some("a".to_string())), Some("a".to_string()));
    assert_eq!(clone_opt_string(&None), None);
}
