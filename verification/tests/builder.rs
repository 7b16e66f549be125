use lunar_logger::{Builder, FilterType, LevelFilter, LoggerError, Registry};

#[test]
fn test_builder() {
    let mut registry = Registry::new();
    Builder::new()
        .add_mod_filter("stuff", LevelFilter::Info)
        .add_crate_filter("wgpu", LevelFilter::Warn)
        .log_to_file()
        .log_filname("./test.log")
        .time_format("%Y")
        .default_filter(LevelFilter::Trace)
        .create("tester", false)
        .unwrap()
        .enable_logger(&mut registry, Ok(()))
        .unwrap();

    let logger = registry.get().unwrap();
    assert!(logger.log("tests", LevelFilter::Trace, "TEST").is_some());
    assert!(logger.log("tests", LevelFilter::Debug, "TEST").is_some());
    assert!(logger.log("tests", LevelFilter::Info, "TEST").is_some());
    assert!(logger.log("tests", LevelFilter::Warn, "TEST").is_some());
    assert!(logger.log("tests", LevelFilter::Error, "TEST").is_some());
}

#[test]
fn a_new_builder_builds_the_default_logger() {
    let logger = Builder::new().create("alice", false).unwrap();
    assert_eq!(logger.filter_count(), 0);
    assert_eq!(logger.default_filter(), LevelFilter::Info);
    assert!(!logger.logs_to_file());
    assert_eq!(logger.timestamp_format(), "%Y-%m-%d %H:%M:%S");
    assert!(logger.uses_color());
    assert!(logger.log_file_name().starts_with("/home/alice/.local/share/lunar-logging/log-"));
    assert!(logger.log_file_name().ends_with(".log"));

    let same = Builder::default().create("alice", true).unwrap();
    assert_eq!(same.filter_count(), 0);
    assert_eq!(same.default_filter(), LevelFilter::Info);
    assert!(same.uses_color());
}

#[test]
fn crate_filters_come_before_module_filters() {
    let logger = Builder::new()
        .add_mod_filter("stuff", LevelFilter::Info)
        .add_crate_filter("wgpu", LevelFilter::Warn)
        .add_mod_filter("more", LevelFilter::Debug)
        .add_crate_filter("naga", LevelFilter::Error)
        .create("alice", false)
        .unwrap();
    assert_eq!(logger.filter_count(), 4);
    assert_eq!(logger.filter_at(0), Some(("wgpu", FilterType::Crate, LevelFilter::Warn)));
    assert_eq!(logger.filter_at(1), Some(("naga", FilterType::Crate, LevelFilter::Error)));
    assert_eq!(logger.filter_at(2), Some(("stuff", FilterType::Module, LevelFilter::Info)));
    assert_eq!(logger.filter_at(3), Some(("more", FilterType::Module, LevelFilter::Debug)));
    assert_eq!(logger.max_level(), LevelFilter::Debug);
}

#[test]
fn the_builder_hands_every_setting_on() {
    let logger = Builder::new()
        .default_filter(LevelFilter::Trace)
        .log_to_file()
        .log_filname("./test.log")
        .time_format("%Y")
        .use_color(false)
        .create("alice", false)
        .unwrap();
    assert_eq!(logger.default_filter(), LevelFilter::Trace);
    assert!(logger.logs_to_file());
    assert_eq!(logger.log_file_name(), "./test.log");
    assert_eq!(logger.timestamp_format(), "%Y");
    assert!(!logger.uses_color());
}

#[test]
fn an_empty_time_format_keeps_the_default() {
    let logger = Builder::new().time_format("").create("alice", false).unwrap();
    assert_eq!(logger.timestamp_format(), "%Y-%m-%d %H:%M:%S");
}

#[test]
fn a_file_name_is_taken_only_with_file_logging() {
    let builder = Builder::new().log_filname("/var/log/app.log");
    assert_eq!(builder.filename_in_use(), None);
    let logger = builder.create("alice", true).unwrap();
    assert!(!logger.logs_to_file());
    assert!(logger.log_file_name().starts_with("/home/alice/.local/share/lunar-logging/log-"));

    let builder = Builder::new().log_to_file();
    assert_eq!(builder.filename_in_use(), None);
    let logger = builder.create("alice", true).unwrap();
    assert!(logger.logs_to_file());
    assert!(logger.log_file_name().starts_with("/home/alice/.local/share/lunar-logging/log-"));

    let builder = Builder::new().log_filname("/var/log/app.log").log_to_file();
    assert_eq!(builder.filename_in_use(), Some("/var/log/app.log"));
    let logger = builder.create("alice", false).unwrap();
    assert_eq!(logger.log_file_name(), "/var/log/app.log");
}

#[test]
fn a_directory_as_file_name_fails_the_build() {
    let res = Builder::new().log_to_file().log_filname("/tmp").create("alice", true);
    assert!(matches!(res, Err(LoggerError::InvalidFiname)));
}

#[test]
fn the_scenario_with_a_noisy_library() {
    let logger = Builder::new()
        .default_filter(LevelFilter::Trace)
        .add_crate_filter("noisylib", LevelFilter::Warn)
        .use_color(false)
        .create("alice", false)
        .unwrap();

    assert!(logger.log("noisylib::inner", LevelFilter::Info, "x").is_none());
    let line = logger.log("noisylib::inner", LevelFilter::Warn, "y").unwrap();
    assert!(line.starts_with("["));
    assert!(line.ends_with(" WARN  noisylib::inner] y\n"));
    assert_eq!(line.matches('\n').count(), 1);
    let line = logger.log("other", LevelFilter::Trace, "z").unwrap();
    assert!(line.ends_with(" TRACE other] z\n"));
}

#[test]
fn a_repeated_filter_is_shadowed() {
    let logger = Builder::new()
        .add_crate_filter("x", LevelFilter::Warn)
        .add_crate_filter("x", LevelFilter::Trace)
        .create("alice", false)
        .unwrap();
    assert!(logger.log("x::y", LevelFilter::Info, "m").is_none());
    assert!(!logger.accepts("x::y", LevelFilter::Info));
    assert_eq!(logger.max_level(), LevelFilter::Trace);
}
