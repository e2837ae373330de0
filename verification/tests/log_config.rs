use mqtt_sn::log_config::{
    shows_part, Color, Config, ConfigBuilder, Level, LevelFilter, LevelPadding, ThreadLogMode, ThreadPadding,
};

#[test]
fn config_default_settings() {
    let c = Config::default();
    assert_eq!(c.time, LevelFilter::Error);
    assert_eq!(c.level, LevelFilter::Error);
    assert_eq!(c.level_padding, LevelPadding::Off);
    assert_eq!(c.thread, LevelFilter::Debug);
    assert_eq!(c.thread_log_mode, ThreadLogMode::IDs);
    assert_eq!(c.thread_padding, ThreadPadding::Off);
    assert_eq!(c.target, LevelFilter::Debug);
    assert_eq!(c.location, LevelFilter::Trace);
    assert_eq!(c.time_format, "%H:%M:%S");
    assert_eq!(c.time_offset, 0);
    assert!(!c.time_local);
    assert!(c.filter_allow.is_empty());
    assert!(c.filter_ignore.is_empty());
    assert_eq!(
        c.level_color,
        [
            None,
            Some(Color::Red),
            Some(Color::Yellow),
            Some(Color::Blue),
            Some(Color::Cyan),
            Some(Color::White)
        ]
    );
}

#[test]
fn builder_level_colors() {
    let mut b = ConfigBuilder::new();
    b.set_level_color(Level::Error, Some(Color::Magenta))
        .set_level_color(Level::Trace, None)
        .set_level_color(Level::Info, Some(Color::Rgb(1, 2, 3)));
    let c = b.build();
    assert_eq!(
        c.level_color,
        [
            None,
            Some(Color::Magenta),
            Some(Color::Yellow),
            Some(Color::Rgb(1, 2, 3)),
            Some(Color::Cyan),
            None
        ]
    );
    assert_eq!(c.level, LevelFilter::Error);
}

#[test]
fn builder_starts_from_default() {
    let c = ConfigBuilder::new().build();
    assert_eq!(c.level, LevelFilter::Error);
    assert_eq!(c.location, LevelFilter::Trace);
    let d = ConfigBuilder::default().build();
    assert_eq!(d.thread, LevelFilter::Debug);
}

#[test]
fn builder_setters_change_one_setting_each() {
    let mut b = ConfigBuilder::new();
    b.set_max_level(LevelFilter::Info)
        .set_time_level(LevelFilter::Warn)
        .set_thread_level(LevelFilter::Off)
        .set_target_level(LevelFilter::Trace)
        .set_location_level(LevelFilter::Debug)
        .set_level_padding(LevelPadding::Left)
        .set_thread_padding(ThreadPadding::Right(4))
        .set_thread_mode(ThreadLogMode::Both)
        .set_time_offset(3600)
        .set_time_to_local(true);
    let c = b.build();
    assert_eq!(c.level, LevelFilter::Info);
    assert_eq!(c.time, LevelFilter::Warn);
    assert_eq!(c.thread, LevelFilter::Off);
    assert_eq!(c.target, LevelFilter::Trace);
    assert_eq!(c.location, LevelFilter::Debug);
    assert_eq!(c.level_padding, LevelPadding::Left);
    assert_eq!(c.thread_padding, ThreadPadding::Right(4));
    assert_eq!(c.thread_log_mode, ThreadLogMode::Both);
    assert_eq!(c.time_offset, 3600);
    assert!(c.time_local);
    assert_eq!(c.time_format, "%H:%M:%S");
}

#[test]
fn builder_time_format() {
    let mut b = ConfigBuilder::new();
    b.set_time_format_str("%Y-%m-%d");
    assert_eq!(b.build().time_format, "%Y-%m-%d");
    b.set_time_format("%H".to_string());
    assert_eq!(b.build().time_format, "%H");
}

#[test]
fn builder_filters_add_and_clear() {
    let mut b = ConfigBuilder::new();
    b.add_filter_allow_str("tokio::uds")
        .add_filter_allow(format!("{}{}", "mqtt", "_sn"))
        .add_filter_ignore_str("sled")
        .add_filter_ignore("hyper".to_string());
    let c = b.build();
    assert_eq!(c.filter_allow, vec!["tokio::uds".to_string(), "mqtt_sn".to_string()]);
    assert_eq!(c.filter_ignore, vec!["sled".to_string(), "hyper".to_string()]);
    b.clear_filter_allow();
    let d = b.build();
    assert!(d.filter_allow.is_empty());
    assert_eq!(d.filter_ignore.len(), 2);
    b.clear_filter_ignore();
    assert!(b.build().filter_ignore.is_empty());
}

#[test]
fn build_leaves_the_builder_unchanged() {
    let mut b = ConfigBuilder::new();
    b.set_max_level(LevelFilter::Trace);
    let first = b.build();
    let second = b.build();
    assert_eq!(first.level, second.level);
    assert_eq!(first.time_format, second.time_format);
}

#[test]
fn parts_show_from_their_level_on() {
    assert!(shows_part(LevelFilter::Error, Level::Error));
    assert!(shows_part(LevelFilter::Error, Level::Trace));
    assert!(!shows_part(LevelFilter::Trace, Level::Debug));
    assert!(shows_part(LevelFilter::Trace, Level::Trace));
    assert!(!shows_part(LevelFilter::Off, Level::Error));
    assert!(shows_part(LevelFilter::Debug, Level::Debug));
}

#[test]
fn module_filters() {
    let c = Config::default();
    assert!(c.lets_through("anything::at_all"));
    let mut b = ConfigBuilder::new();
    b.add_filter_allow_str("mqtt_sn").add_filter_ignore_str("mqtt_sn::noisy");
    let c = b.build();
    assert!(c.lets_through("mqtt_sn::gateway"));
    assert!(c.lets_through("mqtt_sn"));
    assert!(!c.lets_through("sled::tree"));
    assert!(!c.lets_through("mqtt_sn::noisy::part"));
    assert!(!c.lets_through("mqtt"));
    let mut b = ConfigBuilder::new();
    b.add_filter_ignore("tokio".to_string());
    let c = b.build();
    assert!(!c.lets_through("tokio::net"));
    assert!(c.lets_through("toki"));
}
