use ftail::level::level_passes;
use ftail::Config;
use ftail::Ftail;
use ftail::FtailError;
use ftail::Level;
use ftail::LevelFilter;
use ftail::LogEvent;

fn event(level: Level, target: &str) -> LogEvent {
    LogEvent::new(
        level,
        target.to_string(),
        "message".to_string(),
        None,
        None,
    )
}

#[test]
fn level_threshold_admits_up_to_filter() {
    assert!(level_passes(Level::Error, LevelFilter::Warn));
    assert!(level_passes(Level::Warn, LevelFilter::Warn));
    assert!(!level_passes(Level::Info, LevelFilter::Warn));
    assert!(!level_passes(Level::Trace, LevelFilter::Error));
    assert!(level_passes(Level::Trace, LevelFilter::Trace));
}

#[test]
fn level_filter_off_admits_everything() {
    assert!(level_passes(Level::Trace, LevelFilter::Off));
    assert!(level_passes(Level::Error, LevelFilter::Off));
}

#[test]
fn target_prefix_filter_accepts_prefixed_target() {
    let active = Ftail::new()
        .filter_targets(vec!["foo"])
        .console(LevelFilter::Trace)
        .init()
        .unwrap();
    assert!(active.enabled(Level::Info, "foo::bar"));
    assert!(!active.enabled(Level::Info, "baz"));
}

#[test]
fn level_allow_list_rejects_unlisted_levels() {
    let active = Ftail::new()
        .filter_levels(vec![Level::Debug, Level::Error])
        .console(LevelFilter::Trace)
        .init()
        .unwrap();
    assert!(active.enabled(Level::Debug, "anything"));
    assert!(active.enabled(Level::Error, "anything"));
    assert!(!active.enabled(Level::Info, "anything"));
}

#[test]
fn no_filters_accept_everything() {
    let active = Ftail::new().console(LevelFilter::Trace).init().unwrap();
    assert!(active.enabled(Level::Trace, "any::target"));
}

#[test]
fn route_delivers_only_to_matching_sinks() {
    let active = Ftail::new()
        .console(LevelFilter::Error)
        .console(LevelFilter::Trace)
        .init()
        .unwrap();
    let delivered = active.route(&event(Level::Warn, "t"));
    assert_eq!(delivered, vec![1]);
    let delivered = active.route(&event(Level::Error, "t"));
    assert_eq!(delivered, vec![0, 1]);
}

#[test]
fn route_respects_global_filter_before_sink_levels() {
    let active = Ftail::new()
        .filter_targets(vec!["app"])
        .console(LevelFilter::Trace)
        .init()
        .unwrap();
    assert_eq!(active.route(&event(Level::Error, "other")), Vec::<usize>::new());
    assert_eq!(active.route(&event(Level::Error, "app::db")), vec![0]);
}

#[test]
fn custom_channels_keep_their_registration_slot() {
    let active = Ftail::new()
        .custom(LevelFilter::Error)
        .console(LevelFilter::Trace)
        .init()
        .unwrap();
    assert!(matches!(active.channels[0].kind, ftail::ChannelKind::Custom));
    assert_eq!(active.route(&event(Level::Warn, "t")), vec![1]);
    assert_eq!(active.route(&event(Level::Error, "t")), vec![0, 1]);
}

#[test]
fn init_with_no_channels_is_refused() {
    let r = Ftail::new().init();
    assert!(matches!(r, Err(FtailError::NoChannelsError)));
}

#[test]
fn init_gives_each_channel_its_own_level() {
    let active = Ftail::new()
        .max_file_size(64)
        .console(LevelFilter::Warn)
        .formatted_console(LevelFilter::Debug)
        .init()
        .unwrap();
    assert_eq!(active.channels.len(), 2);
    assert_eq!(active.channels[0].config.level_filter, LevelFilter::Warn);
    assert_eq!(active.channels[1].config.level_filter, LevelFilter::Debug);
    assert_eq!(active.channels[0].config.max_file_size, Some(64));
}

#[test]
fn flush_covers_every_sink_in_order_and_is_idempotent() {
    let active = Ftail::new()
        .console(LevelFilter::Trace)
        .console(LevelFilter::Debug)
        .console(LevelFilter::Error)
        .init()
        .unwrap();
    let first = active.flush_order();
    let second = active.flush_order();
    assert_eq!(first, vec![0, 1, 2]);
    assert_eq!(first, second);
}

#[test]
fn builder_records_configuration() {
    let b = Ftail::new()
        .datetime_format("%H:%M:%S")
        .max_file_size(10)
        .retention_days(7);
    assert_eq!(b.config.datetime_format, "%H:%M:%S");
    assert_eq!(b.config.max_file_size, Some(10));
    assert_eq!(b.config.retention_days, Some(7));
    assert_eq!(b.channels.len(), 0);
}

#[test]
fn default_config_has_no_filters() {
    let c = Config::new();
    assert_eq!(c.level_filter, LevelFilter::Off);
    assert_eq!(c.datetime_format, "%Y-%m-%d %H:%M:%S");
    assert_eq!(c.max_file_size, None);
    assert_eq!(c.retention_days, None);
    assert!(c.levels.is_none());
    assert!(c.targets.is_none());
}
