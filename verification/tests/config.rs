use focus_timer::config::{Activity, Configuration};

#[test]
fn new_configuration_clamps_both_numbers() {
    let low = Configuration::new(Activity::Coding, 0, 0);
    assert_eq!(low.work_minutes(), 1);
    assert_eq!(low.session_count(), 1);
    let high = Configuration::new(Activity::Coding, 61, 13);
    assert_eq!(high.work_minutes(), 60);
    assert_eq!(high.session_count(), 12);
    let kept = Configuration::new(Activity::DeepWork, 45, 7);
    assert_eq!(kept.work_minutes(), 45);
    assert_eq!(kept.session_count(), 7);
    assert_eq!(kept.activity(), Activity::DeepWork);
    let extreme = Configuration::new(Activity::Reading, u32::MAX, u32::MAX);
    assert_eq!(extreme.work_minutes(), 60);
    assert_eq!(extreme.session_count(), 12);
}

#[test]
fn default_configuration_is_four_sessions_of_twenty_five_minutes() {
    let cfg = Configuration::default();
    assert_eq!(cfg, Configuration::new(Activity::Studying, 25, 4));
}

#[test]
fn work_minutes_stay_between_one_and_sixty() {
    let mut cfg = Configuration::new(Activity::Studying, 59, 4);
    cfg.increase_work_minutes();
    assert_eq!(cfg.work_minutes(), 60);
    cfg.increase_work_minutes();
    assert_eq!(cfg.work_minutes(), 60);
    let mut low = Configuration::new(Activity::Studying, 2, 4);
    low.decrease_work_minutes();
    assert_eq!(low.work_minutes(), 1);
    low.decrease_work_minutes();
    assert_eq!(low.work_minutes(), 1);
    assert_eq!(low.session_count(), 4);
    assert_eq!(low.activity(), Activity::Studying);
}

#[test]
fn session_count_stays_between_one_and_twelve() {
    let mut cfg = Configuration::new(Activity::Studying, 25, 11);
    cfg.increase_session_count();
    assert_eq!(cfg.session_count(), 12);
    cfg.increase_session_count();
    assert_eq!(cfg.session_count(), 12);
    let mut low = Configuration::new(Activity::Studying, 25, 2);
    low.decrease_session_count();
    assert_eq!(low.session_count(), 1);
    low.decrease_session_count();
    assert_eq!(low.session_count(), 1);
    assert_eq!(low.work_minutes(), 25);
}

#[test]
fn activities_are_listed_in_order_without_wrapping() {
    let all = [Activity::Studying, Activity::Coding, Activity::DeepWork, Activity::Reading];
    for (i, a) in all.iter().enumerate() {
        assert_eq!(a.position(), i);
        let next = if i + 1 < all.len() { all[i + 1] } else { all[i] };
        let previous = if i > 0 { all[i - 1] } else { all[i] };
        assert_eq!(a.next(), next);
        assert_eq!(a.previous(), previous);
    }
}

#[test]
fn activity_labels() {
    assert_eq!(Activity::Studying.label(), "Studying 📚");
    assert_eq!(Activity::Coding.label(), "Coding 💻");
    assert_eq!(Activity::DeepWork.label(), "Deep Work 🧠");
    assert_eq!(Activity::Reading.label(), "Reading 📖");
}

#[test]
fn set_activity_changes_only_the_activity() {
    let mut cfg = Configuration::new(Activity::Studying, 30, 3);
    cfg.set_activity(Activity::Reading);
    assert_eq!(cfg, Configuration::new(Activity::Reading, 30, 3));
}
