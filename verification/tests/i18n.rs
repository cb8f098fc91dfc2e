use bing_wallpaper_lib::i18n::{
    is_han, localize_status_resolved, runtime_status_text, translate, LanguagePreference,
    RuntimeStatus,
};
use bing_wallpaper_lib::library::loaded_status;

#[test]
fn every_supported_language_has_a_locale_and_flag() {
    for language in LanguagePreference::all() {
        assert!(!language.gpui_locale("").is_empty());
        assert!(!language.flag().is_empty());
        assert!(!language.native_name().is_empty());
    }
}

#[test]
fn core_navigation_is_translated() {
    assert_eq!(LanguagePreference::SimplifiedChinese.t("", "Home"), "主页");
    assert_eq!(LanguagePreference::Japanese.t("", "Settings"), "設定");
    assert_eq!(LanguagePreference::Korean.t("", "Language"), "언어");
    assert_eq!(LanguagePreference::Russian.t("", "Archive"), "Архив");
    assert_eq!(LanguagePreference::French.t("", "Favorites"), "Favoris");
}

#[test]
fn tray_and_notification_keys_do_not_fall_back_to_english() {
    let keys = [
        "Open main window",
        "Run in background",
        "Change wallpaper daily",
        "Change once now",
        "Exit",
        "Already up to date",
        "Update check failed",
    ];

    for language in [
        LanguagePreference::Japanese,
        LanguagePreference::Korean,
        LanguagePreference::Russian,
        LanguagePreference::French,
    ] {
        for key in keys {
            assert_ne!(
                language.t("", key),
                key,
                "missing {language:?} translation: {key}"
            );
        }
    }
}

#[test]
fn periodic_task_keys_are_translated_in_every_non_english_catalog() {
    let keys = [
        "Windows scheduled wallpaper",
        "Enable periodic task scheduler",
        "Use latest Bing wallpaper for the first run each day",
        "Later wallpaper source",
        "Repeat interval",
        "Periodic task hint",
        "Periodic task enabled",
        "Failed to update periodic task",
    ];

    for language in [
        LanguagePreference::SimplifiedChinese,
        LanguagePreference::Japanese,
        LanguagePreference::Korean,
        LanguagePreference::Russian,
        LanguagePreference::French,
    ] {
        for key in keys {
            assert_ne!(
                language.t("", key),
                key,
                "missing {language:?} translation: {key}"
            );
        }
    }
}

#[test]
fn runtime_statuses_follow_the_selected_language() {
    assert_eq!(
        LanguagePreference::English.localize_status("", "已开启后台常驻（系统托盘图标已可用）"),
        "Setting enabled"
    );
    assert_eq!(
        LanguagePreference::Japanese.localize_status("", "检查更新失败: test"),
        "操作に失敗しました"
    );
    assert_eq!(
        LanguagePreference::Russian
            .localize_status("", "Automatic wallpaper source: Случайные из истории"),
        "Источник автоматических обоев: Случайные из истории"
    );
}

#[test]
fn system_language_follows_the_locale_prefix() {
    assert_eq!(LanguagePreference::System.resolved("zh-CN"), LanguagePreference::SimplifiedChinese);
    assert_eq!(LanguagePreference::System.resolved("JA-jp"), LanguagePreference::Japanese);
    assert_eq!(LanguagePreference::System.resolved("ko"), LanguagePreference::Korean);
    assert_eq!(LanguagePreference::System.resolved("ru-RU"), LanguagePreference::Russian);
    assert_eq!(LanguagePreference::System.resolved("fr-CA"), LanguagePreference::French);
    assert_eq!(LanguagePreference::System.resolved("de-DE"), LanguagePreference::English);
    assert_eq!(LanguagePreference::System.resolved(""), LanguagePreference::English);
    assert_eq!(LanguagePreference::Korean.resolved("zh-CN"), LanguagePreference::Korean);
}

#[test]
fn resolving_twice_keeps_the_language() {
    for language in LanguagePreference::all() {
        let once = language.resolved("ru-RU");
        assert_ne!(once, LanguagePreference::System);
        assert_eq!(once.resolved("ja-JP"), once);
    }
}

#[test]
fn english_keys_are_their_own_translation() {
    assert_eq!(LanguagePreference::English.t("", "Home"), "Home");
    assert_eq!(LanguagePreference::System.t("en-US", "Settings"), "Settings");
    assert_eq!(LanguagePreference::French.t("", "No such key at all"), "No such key at all");
}

#[test]
fn locale_names_and_labels() {
    assert_eq!(LanguagePreference::SimplifiedChinese.gpui_locale(""), "zh-CN");
    assert_eq!(LanguagePreference::System.gpui_locale("ko-KR"), "ko");
    assert_eq!(LanguagePreference::English.gpui_locale(""), "en");
    assert_eq!(LanguagePreference::French.flag(), "🇫🇷");
    assert_eq!(LanguagePreference::Japanese.native_name(), "日本語");
    assert_eq!(LanguagePreference::SimplifiedChinese.year_label("", 2026), "2026 年");
    assert_eq!(LanguagePreference::Korean.year_label("", 2026), "2026년");
    assert_eq!(LanguagePreference::Russian.year_label("", 2026), "2026 г.");
    assert_eq!(LanguagePreference::English.year_label("", 2026), "2026");
    assert_eq!(LanguagePreference::SimplifiedChinese.month_count_label("", 7, 31), "07 月 (31 张)");
    assert_eq!(LanguagePreference::French.month_count_label("", 3, 5), "Mois 03 (5)");
    assert_eq!(LanguagePreference::English.month_count_label("", 12, 0), "Month 12 (0)");
    assert_eq!(LanguagePreference::Korean.year_month_label("", 2026, 7), "2026년 07월");
    assert_eq!(LanguagePreference::Russian.year_month_label("", 2026, 7), "07.2026");
    assert_eq!(LanguagePreference::French.year_month_label("", 2026, 7), "07/2026");
    assert_eq!(LanguagePreference::English.year_month_label("", 2026, 7), "2026-07");
}

#[test]
fn chinese_statuses_are_kept_and_plain_text_passes_through() {
    assert_eq!(
        LanguagePreference::SimplifiedChinese.localize_status("", "已加入收藏: 2026-07-04"),
        "已加入收藏: 2026-07-04"
    );
    assert_eq!(
        LanguagePreference::English.localize_status("", "All good"),
        "All good"
    );
    assert_eq!(
        LanguagePreference::English.localize_status("", "已加入收藏: 2026-07-04"),
        "Added to favorites"
    );
}

#[test]
fn catalog_lookup_by_resolved_language() {
    assert_eq!(translate(LanguagePreference::SimplifiedChinese, "Home"), "主页");
    assert_eq!(translate(LanguagePreference::English, "Home"), "Home");
    assert_eq!(translate(LanguagePreference::System, "Home"), "Home");
    assert_eq!(translate(LanguagePreference::Korean, "Not a catalog key"), "Not a catalog key");
}

#[test]
fn status_texts_per_language() {
    assert_eq!(
        runtime_status_text(LanguagePreference::English, RuntimeStatus::Loaded),
        "Wallpaper list loaded"
    );
    assert_eq!(
        runtime_status_text(LanguagePreference::French, RuntimeStatus::Failed),
        "L’opération a échoué"
    );
    assert_eq!(
        runtime_status_text(LanguagePreference::Korean, RuntimeStatus::Done),
        "작업을 완료했습니다"
    );
}

#[test]
fn han_characters_are_told_apart() {
    assert!(is_han('壁'));
    assert!(is_han('\u{3400}'));
    assert!(is_han('\u{f900}'));
    assert!(!is_han('a'));
    assert!(!is_han('が'));
    assert!(!is_han('한'));
}

#[test]
fn statuses_are_classified_by_their_chinese_wording() {
    let loaded = loaded_status(42);
    assert_eq!(loaded, "共 42 张壁纸");
    assert_eq!(
        localize_status_resolved(LanguagePreference::English, &loaded),
        "Wallpaper list loaded"
    );
    assert_eq!(
        localize_status_resolved(LanguagePreference::SimplifiedChinese, &loaded),
        "共 42 张壁纸"
    );
    assert_eq!(
        localize_status_resolved(LanguagePreference::Japanese, "正在下载 2026-07-04"),
        runtime_status_text(LanguagePreference::Japanese, RuntimeStatus::Downloading)
    );
    assert_eq!(
        localize_status_resolved(LanguagePreference::English, "请选择一个文件夹"),
        runtime_status_text(LanguagePreference::English, RuntimeStatus::ActionRequired)
    );
    assert_eq!(
        localize_status_resolved(LanguagePreference::English, "正在整理"),
        runtime_status_text(LanguagePreference::English, RuntimeStatus::Working)
    );
    assert_eq!(
        localize_status_resolved(LanguagePreference::English, "好了"),
        runtime_status_text(LanguagePreference::English, RuntimeStatus::Done)
    );
    assert_eq!(
        localize_status_resolved(LanguagePreference::French, "Failed to save language setting: x"),
        "L’opération a échoué"
    );
}
