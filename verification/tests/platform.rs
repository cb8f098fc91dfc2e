use bing_wallpaper_lib::aria2::{launch_arguments, rpc_url, secret_token};
use bing_wallpaper_lib::assets::{icon_table, Assets, ICON_COUNT};
use bing_wallpaper_lib::date::{parse_compact_date, parse_dashed_date, Date};
use bing_wallpaper_lib::names::{app_window_title, new_tool_file_name, tool_file_name, APP_NAME};
use bing_wallpaper_lib::system::{
    monitor_id_usable, relaunch_arguments, startup_command, strip_verbatim_prefix,
};
use bing_wallpaper_lib::thumbnails::{
    control_file_name, thumbnail_file_name, thumbnail_temp_file_name, SourceFingerprint,
};
use bing_wallpaper_lib::tray::{
    command_for_id, command_for_wparam, context_menu_items, fill_wide, to_wide,
    tray_event_action, TrayCommand, TrayEventAction, TrayMenuItem,
};

#[test]
fn window_title_has_the_version() {
    assert_eq!(app_window_title(), "必应每日壁纸库 v0.2.32");
    assert_eq!(APP_NAME, "必应每日壁纸库");
}

#[test]
fn tool_file_names_are_random_and_well_formed() {
    assert_eq!(tool_file_name("abc"), "aria2c-abc.exe");
    let a = new_tool_file_name();
    let b = new_tool_file_name();
    assert_ne!(a, b);
    assert_eq!(a.len(), "aria2c-".len() + 32 + ".exe".len());
    assert!(a.starts_with("aria2c-") && a.ends_with(".exe"));
    assert!(a[7..39].chars().all(|c| c.is_ascii_hexdigit() && !c.is_ascii_uppercase()));
}

#[test]
fn tray_commands_and_events() {
    assert_eq!(command_for_id(1001), Some(TrayCommand::ShowWindow));
    assert_eq!(command_for_id(1005), Some(TrayCommand::ChangeWallpaperNow));
    assert_eq!(command_for_id(1099), Some(TrayCommand::Quit));
    assert_eq!(command_for_id(1006), None);
    assert_eq!(command_for_wparam(0x0001_0000 + 1002), Some(TrayCommand::ToggleStartup));
    assert_eq!(tray_event_action(0x0203), TrayEventAction::ShowWindow);
    assert_eq!(tray_event_action(0x0400), TrayEventAction::ShowWindow);
    assert_eq!(tray_event_action(0x0005_0205), TrayEventAction::ContextMenu);
    assert_eq!(tray_event_action(0x007B), TrayEventAction::ContextMenu);
    assert_eq!(tray_event_action(0x0200), TrayEventAction::PassOn);
}

#[test]
fn tray_menu_shows_the_switches() {
    let items = context_menu_items(true, false, true);
    assert_eq!(items.len(), 8);
    assert_eq!(
        items[2],
        TrayMenuItem::Entry { id: 1002, text: "开机自启", checked: true }
    );
    assert_eq!(
        items[3],
        TrayMenuItem::Entry { id: 1003, text: "后台常驻", checked: false }
    );
    assert_eq!(items[6], TrayMenuItem::Separator);
    assert_eq!(items[7], TrayMenuItem::Entry { id: 1099, text: "退出", checked: false });
}

#[test]
fn wide_text_is_utf16_with_terminator() {
    let expected: Vec<u16> = "必应 a😀".encode_utf16().chain(std::iter::once(0)).collect();
    assert_eq!(to_wide("必应 a😀"), expected);
    assert_eq!(to_wide(""), vec![0]);
    let mut small = vec![7u16; 3];
    fill_wide(&mut small, "abcdef");
    assert_eq!(small, vec![97, 98, 99]);
    let mut big = vec![7u16; 5];
    fill_wide(&mut big, "ab");
    assert_eq!(big, vec![97, 98, 0, 7, 7]);
}

#[test]
fn thumbnail_and_control_file_names() {
    assert_eq!(control_file_name("2026-07-04.jpg"), "2026-07-04.jpg.aria2");
    assert_eq!(thumbnail_file_name(0x1a2b), "0000000000001a2b.jpg");
    assert_eq!(thumbnail_file_name(u64::MAX), "ffffffffffffffff.jpg");
    assert_eq!(thumbnail_temp_file_name(255), "00000000000000ff.tmp.jpg");
    let a = SourceFingerprint { source: "a.jpg".to_string(), length: 3, modified_nanos: Some(5) };
    let mut b = a.clone();
    assert_eq!(a, b);
    b.length = 4;
    assert_ne!(a, b);
}

#[test]
fn icon_lookup() {
    let assets = Assets;
    assert_eq!(icon_table().len(), ICON_COUNT);
    let i = assets.load("icons/heart.svg").unwrap();
    assert_eq!(icon_table()[i], "icons/heart.svg");
    assert_eq!(assets.load("icons/missing.svg"), None);
    assert_eq!(
        assets.list("icons/heart"),
        vec!["icons/heart-filled.svg", "icons/heart-outline.svg", "icons/heart.svg"]
    );
    assert_eq!(assets.list("icons/").len(), ICON_COUNT);
    assert!(assets.list("fonts/").is_empty());
}

#[test]
fn windows_command_texts() {
    assert_eq!(
        relaunch_arguments(&vec!["--background".to_string(), "a b".to_string()]),
        "\"--background\" \"a b\""
    );
    assert_eq!(relaunch_arguments(&Vec::new()), "");
    assert_eq!(
        startup_command(r"C:\Apps\必应每日壁纸.exe"),
        r#""C:\Apps\必应每日壁纸.exe" --background"#
    );
    assert_eq!(strip_verbatim_prefix(r"\\?\C:\Wallpapers\a.jpg"), r"C:\Wallpapers\a.jpg");
    assert_eq!(strip_verbatim_prefix(r"C:\Wallpapers\a.jpg"), r"C:\Wallpapers\a.jpg");
    assert!(monitor_id_usable("\\\\?\\DISPLAY#1"));
    assert!(!monitor_id_usable("  "));
}

#[test]
fn download_tool_command_line() {
    let args = launch_arguments(r"D:\壁纸");
    assert_eq!(args.len(), 16);
    assert_eq!(args[0], "--enable-rpc");
    assert_eq!(args[1], "--rpc-listen-port=16800");
    assert_eq!(args[2], "--rpc-secret=bing-wallpaper-lib-local");
    assert_eq!(args[5], r"--dir=D:\壁纸");
    assert_eq!(args[15], "--quiet=true");
    assert_eq!(rpc_url(), "http://127.0.0.1:16800/jsonrpc");
    assert_eq!(secret_token(), "token:bing-wallpaper-lib-local");
}

#[test]
fn dates_read_and_written_by_chrono() {
    let d = parse_dashed_date("2026-07-04").unwrap();
    assert_eq!((d.year(), d.month(), d.day()), (2026, 7, 4));
    assert_eq!(parse_compact_date("20260229"), None);
    assert_eq!(parse_compact_date("20240229"), Date::from_ymd_opt(2024, 2, 29));
    assert_eq!(d.iso_text(), "2026-07-04");
    assert_eq!(d.cn_text(), "2026年07月04日");
    assert_eq!(Date::from_ymd_opt(2026, 12, 31).unwrap().next_day(), Date::from_ymd_opt(2027, 1, 1));
    assert!(Date::from_ymd_opt(2026, 2, 30).is_none());
    assert!(Date::from_ymd_opt(2026, 7, 3).unwrap().is_before(&d));
}

#[test]
fn days_compare_field_by_field() {
    let a = Date::from_ymd_opt(2024, 2, 29).unwrap();
    let b = Date::from_ymd_opt(2024, 2, 29).unwrap();
    let c = Date::from_ymd_opt(2024, 3, 1).unwrap();
    assert!(a.same_day(&b));
    assert!(!a.same_day(&c));
    assert!(a.is_before(&c));
    assert!(!c.is_before(&a));
    assert!(!a.is_before(&b));
    assert_eq!(a.next_day(), Some(c));
}

#[test]
fn every_date_is_a_valid_day() {
    let d = Date::from_ymd_opt(2024, 2, 29).unwrap();
    d.validity();
    assert!((1..=12).contains(&d.month()));
    assert!((1..=29).contains(&d.day()));
}
