use bing_wallpaper_lib::schedule::{repetition_interval, task_account};

#[test]
fn formats_task_scheduler_repetition_intervals() {
    assert_eq!(repetition_interval(0), "PT1M");
    assert_eq!(repetition_interval(1), "PT1M");
    assert_eq!(repetition_interval(60), "PT1H");
    assert_eq!(repetition_interval(90), "PT1H30M");
    assert_eq!(repetition_interval(1439), "PT23H59M");
    assert_eq!(repetition_interval(u16::MAX), "PT23H59M");
}

#[test]
fn repetition_interval_of_minutes_only() {
    assert_eq!(repetition_interval(45), "PT45M");
    assert_eq!(repetition_interval(120), "PT2H");
    assert_eq!(repetition_interval(61), "PT1H1M");
}

#[test]
fn task_account_joins_domain_and_user() {
    assert_eq!(task_account("WORKGROUP", "me"), "WORKGROUP\\me");
    assert_eq!(task_account("   ", "me"), "me");
    assert_eq!(task_account("", "me"), "me");
}
