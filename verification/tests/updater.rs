use bing_wallpaper_lib::updater::{
    batch_path, build_relaunch_script, check_update_file, find_release_asset,
    gitee_release_assets_api_url, gitee_release_by_tag_api_url, gitee_release_html_url,
    gitee_release_info, github_release_download_url, github_release_info,
    is_newer_release, is_release_executable_name, parse_u64, parse_version, UpdateFileError,
    CURRENT_VERSION,
};

#[test]
fn parses_version_with_v_prefix() {
    assert_eq!(parse_version("v1.2.3"), Some((1, 2, 3)));
    assert_eq!(parse_version("2.0.0"), Some((2, 0, 0)));
    assert_eq!(parse_version("v0.1"), Some((0, 1, 0)));
}

#[test]
fn compares_versions_correctly() {
    assert!(parse_version("v0.2.0") > parse_version("v0.1.0"));
    assert!(parse_version("v0.1.1") > parse_version("v0.1.0"));
    assert!(parse_version("v1.0.0") > parse_version("v0.9.9"));
    assert!(parse_version("v0.1.0") <= parse_version("v0.1.0"));
}

#[test]
fn relaunch_script_preserves_current_executable_path() {
    let new_exe =
        r"C:\Users\me\AppData\Local\BingWallpaperLib\update\bing-wallpaper-lib-v0.2.25-x64.exe";
    let old_exe = r"C:\Users\me\Desktop\必应每日壁纸.exe";
    let script = build_relaunch_script(new_exe, old_exe, old_exe);

    assert!(script.contains(r#"copy /Y "C:\Users\me\AppData\Local\BingWallpaperLib\update\bing-wallpaper-lib-v0.2.25-x64.exe" "C:\Users\me\Desktop\必应每日壁纸.exe""#));
    assert!(script.contains(r#"start "" "C:\Users\me\Desktop\必应每日壁纸.exe""#));
    assert!(script.contains(r#"if /I not "C:\Users\me\Desktop\必应每日壁纸.exe"=="C:\Users\me\Desktop\必应每日壁纸.exe" del "C:\Users\me\Desktop\必应每日壁纸.exe""#));
}

#[test]
fn accepts_only_expected_release_executable_names() {
    assert!(is_release_executable_name("bing-wallpaper-lib-v0.2.30-x64.exe"));
    assert!(!is_release_executable_name("checksums.exe"));
    assert!(!is_release_executable_name(
        "bing-wallpaper-lib-v0.2.30-%PATH%-x64.exe"
    ));
}

#[test]
fn formats_github_release_download_url() {
    let url = github_release_download_url("v0.2.9", "bing-wallpaper-lib-v0.2.9-x64.exe");
    assert_eq!(
        url,
        "https://github.com/pandaligx/bing-wallpaper-lib/releases/download/v0.2.9/bing-wallpaper-lib-v0.2.9-x64.exe"
    );
}

#[test]
fn version_parts_that_do_not_read_are_refused() {
    assert_eq!(parse_version("  v3.4.5  "), Some((3, 4, 5)));
    assert_eq!(parse_version("vv1"), Some((1, 0, 0)));
    assert_eq!(parse_version("1.2.3.4"), Some((1, 2, 3)));
    assert_eq!(parse_version("+1.+2.3"), Some((1, 2, 3)));
    assert_eq!(parse_version(""), None);
    assert_eq!(parse_version("v1..2"), None);
    assert_eq!(parse_version("v1.x"), None);
    assert_eq!(parse_version("1.2.-3"), None);
    assert_eq!(parse_version("18446744073709551615"), Some((u64::MAX, 0, 0)));
    assert_eq!(parse_version("18446744073709551616"), None);
}

#[test]
fn newer_release_needs_both_versions_to_read() {
    assert!(is_newer_release("v0.2.33", CURRENT_VERSION));
    assert!(!is_newer_release("v0.2.32", CURRENT_VERSION));
    assert!(!is_newer_release("v0.2.31", CURRENT_VERSION));
    assert!(!is_newer_release("nightly", CURRENT_VERSION));
    assert!(is_newer_release("v1.0.0", "0.9.9"));
    assert!(!is_newer_release("v1.0.0", "v1.0.0"));
}

#[test]
fn gitee_addresses() {
    assert_eq!(
        gitee_release_html_url("v0.2.9"),
        "https://gitee.com/pandaligx/bing-wallpaper-lib/releases/tag/v0.2.9"
    );
    assert_eq!(
        gitee_release_by_tag_api_url("v0.2.9"),
        "https://gitee.com/api/v5/repos/pandaligx/bing-wallpaper-lib/releases/tags/v0.2.9"
    );
    assert_eq!(
        gitee_release_assets_api_url(421907),
        "https://gitee.com/api/v5/repos/pandaligx/bing-wallpaper-lib/releases/421907/attach_files?per_page=100"
    );
}

#[test]
fn gitee_offer_falls_back_to_github() {
    let info = gitee_release_info(
        "v0.2.40",
        "bing-wallpaper-lib-v0.2.40-x64.exe",
        "https://gitee.com/pandaligx/bing-wallpaper-lib/releases/download/v0.2.40/bing-wallpaper-lib-v0.2.40-x64.exe",
    );
    assert_eq!(info.version, "0.2.40");
    assert_eq!(
        info.html_url,
        "https://gitee.com/pandaligx/bing-wallpaper-lib/releases/tag/v0.2.40"
    );
    assert_eq!(
        info.fallback_download_url.as_deref(),
        Some("https://github.com/pandaligx/bing-wallpaper-lib/releases/download/v0.2.40/bing-wallpaper-lib-v0.2.40-x64.exe")
    );
    let same = gitee_release_info(
        "v0.2.40",
        "a.exe",
        "https://github.com/pandaligx/bing-wallpaper-lib/releases/download/v0.2.40/a.exe",
    );
    assert_eq!(same.fallback_download_url, None);
}

#[test]
fn github_offer_prefers_gitee_copy() {
    let with_gitee = github_release_info(
        "v0.3.0",
        "https://github.com/x/releases/tag/v0.3.0",
        "bing-wallpaper-lib-v0.3.0-x64.exe",
        "https://github.com/x/a.exe",
        Some("https://gitee.com/x/a.exe"),
    );
    assert_eq!(with_gitee.download_url, "https://gitee.com/x/a.exe");
    assert_eq!(with_gitee.fallback_download_url.as_deref(), Some("https://github.com/x/a.exe"));
    assert_eq!(with_gitee.version, "0.3.0");
    let github_only = github_release_info(
        "v0.3.0",
        "https://github.com/x/releases/tag/v0.3.0",
        "bing-wallpaper-lib-v0.3.0-x64.exe",
        "https://github.com/x/a.exe",
        None,
    );
    assert_eq!(github_only.download_url, "https://github.com/x/a.exe");
    assert_eq!(github_only.fallback_download_url, None);
}

#[test]
fn release_asset_lookup() {
    let names = vec![
        "checksums.txt".to_string(),
        "bing-wallpaper-lib-v0.3.0-x64.exe".to_string(),
        "bing-wallpaper-lib-v0.3.0-arm64.exe".to_string(),
    ];
    assert_eq!(find_release_asset(&names, None), Some(1));
    assert_eq!(
        find_release_asset(&names, Some("bing-wallpaper-lib-v0.3.0-x64.exe")),
        Some(1)
    );
    assert_eq!(find_release_asset(&names, Some("other-x64.exe")), None);
}

#[test]
fn downloaded_update_checks() {
    assert_eq!(check_update_file(true, 2 * 1024 * 1024, b"MZ\x90\x00"), Ok(()));
    assert_eq!(
        check_update_file(true, 1024, b"MZ"),
        Err(UpdateFileError::BadSize)
    );
    assert_eq!(
        check_update_file(false, 2 * 1024 * 1024, b"MZ"),
        Err(UpdateFileError::BadSize)
    );
    assert_eq!(
        check_update_file(true, 2 * 1024 * 1024, b"PK"),
        Err(UpdateFileError::NotExecutable)
    );
}

#[test]
fn batch_paths_double_percent_signs() {
    let escaped: String = batch_path(r"C:\100%\new%x.exe").into_iter().collect();
    assert_eq!(escaped, r"C:\100%%\new%%x.exe");
    let script = build_relaunch_script("a%b.exe", "old.exe", "final.exe");
    assert!(script.starts_with("@echo off\r\n"));
    assert!(script.contains("copy /Y \"a%%b.exe\" \"final.exe\""));
    assert!(script.ends_with("del \"%~f0\" >nul 2>&1\r\n"));
    assert!(script.contains(":failed\r\nstart \"\" \"old.exe\""));
}

#[test]
fn decimal_numbers_read_like_str_parse() {
    let p = |s: &str| parse_u64(&s.chars().collect());
    assert_eq!(p("0"), Some(0));
    assert_eq!(p("+42"), Some(42));
    assert_eq!(p("007"), Some(7));
    assert_eq!(p("18446744073709551615"), Some(u64::MAX));
    assert_eq!(p("18446744073709551616"), None);
    assert_eq!(p(""), None);
    assert_eq!(p("+"), None);
    assert_eq!(p("-1"), None);
    assert_eq!(p("1a"), None);
    assert_eq!(p(" 1"), None);
}
