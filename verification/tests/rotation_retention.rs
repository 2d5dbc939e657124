use ftail::rotation::rotation_plan;
use ftail::rotation::should_rotate;
use ftail::retention::prune_decisions;
use ftail::retention::should_prune;
use ftail::strutil::has_log_suffix;
use ftail::strutil::starts_with;

#[test]
fn size_rotation_triggers_at_threshold() {
    assert!(should_rotate(10, Some(10)));
    assert!(should_rotate(11, Some(10)));
    assert!(!should_rotate(9, Some(10)));
    assert!(!should_rotate(u64::MAX, None));
}

#[test]
fn first_rotation_moves_active_file_to_old1() {
    let plan = rotation_plan("logs/demo.log", 0);
    assert!(plan.remove_oldest.is_none());
    assert_eq!(plan.renames.len(), 1);
    assert_eq!(plan.renames[0].from, "logs/demo.log");
    assert_eq!(plan.renames[0].to, "logs/demo.log.old1");
}

#[test]
fn rotation_renumbers_existing_old_files_upward() {
    let plan = rotation_plan("demo.log", 2);
    assert!(plan.remove_oldest.is_none());
    assert_eq!(plan.renames.len(), 3);
    assert_eq!(plan.renames[0].from, "demo.log.old2");
    assert_eq!(plan.renames[0].to, "demo.log.old3");
    assert_eq!(plan.renames[1].from, "demo.log.old1");
    assert_eq!(plan.renames[1].to, "demo.log.old2");
    assert_eq!(plan.renames[2].from, "demo.log");
    assert_eq!(plan.renames[2].to, "demo.log.old1");
}

#[test]
fn rotation_at_cap_drops_the_oldest() {
    let plan = rotation_plan("demo.log", 9);
    assert_eq!(plan.remove_oldest.as_deref(), Some("demo.log.old9"));
    assert_eq!(plan.renames.len(), 9);
    assert_eq!(plan.renames[0].from, "demo.log.old8");
    assert_eq!(plan.renames[0].to, "demo.log.old9");
    assert_eq!(plan.renames[8].from, "demo.log");
    assert_eq!(plan.renames[8].to, "demo.log.old1");
}

#[test]
fn age_beyond_window_is_pruned() {
    assert!(should_prune(8, 7));
    assert!(!should_prune(7, 7));
    assert!(!should_prune(6, 7));
    assert!(!should_prune(-1, 0));
}

#[test]
fn prune_selects_only_old_log_files() {
    let names = vec![
        "2024-01-01.log".to_string(),
        "2024-01-05.log".to_string(),
        "notes.txt".to_string(),
    ];
    let ages = vec![Some(8), Some(6), Some(100)];
    let keep = "2024-01-09.log".to_string();
    let deletes = prune_decisions(&names, &ages, 7, &keep);
    assert_eq!(deletes, vec![0]);
}

#[test]
fn prune_never_selects_the_current_file() {
    let names = vec!["2024-01-01.log".to_string()];
    let ages = vec![Some(100)];
    let keep = "2024-01-01.log".to_string();
    let deletes = prune_decisions(&names, &ages, 7, &keep);
    assert!(deletes.is_empty());
}

#[test]
fn unknown_age_is_never_pruned() {
    let names = vec!["1960-01-01.log".to_string(), "2024-01-01.log".to_string()];
    let ages = vec![None, Some(8)];
    let keep = "2024-01-09.log".to_string();
    let deletes = prune_decisions(&names, &ages, 7, &keep);
    assert_eq!(deletes, vec![1]);
}

#[test]
fn log_suffix_requires_a_stem() {
    assert!(has_log_suffix("a.log"));
    assert!(has_log_suffix("2024-01-01.log"));
    assert!(!has_log_suffix(".log"));
    assert!(!has_log_suffix("alog"));
    assert!(!has_log_suffix("notes.txt"));
}

#[test]
fn prefix_match_is_by_initial_segment() {
    assert!(starts_with("foo::bar", "foo"));
    assert!(starts_with("foo", "foo"));
    assert!(!starts_with("baz", "foo"));
    assert!(!starts_with("fo", "foo"));
    assert!(starts_with("anything", ""));
}
