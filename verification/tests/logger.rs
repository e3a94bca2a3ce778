use slippi_rust_extensions::logger::layer::{
    convert_dolphin_log_level_to_tracing_level, host_line, DolphinLoggerLayer,
    DolphinLoggerVisitor, Level, LogRoute,
};
use slippi_rust_extensions::logger::log::{DEPENDENCIES, EXI, GAME_REPORTER, JUKEBOX};
use slippi_rust_extensions::logger::{
    init, mainline_update_log_level, register_container, update_container, Logger,
};
use slippi_rust_extensions::text::{append_decimal, append_signed_decimal, digit_str, has_nul};

fn registered() -> Logger {
    let mut logger = Logger::new();
    register_container(&mut logger, DEPENDENCIES.to_string(), 10, true, 4);
    register_container(&mut logger, EXI.to_string(), 11, false, 2);
    register_container(&mut logger, GAME_REPORTER.to_string(), 12, true, 3);
    register_container(&mut logger, EXI.to_string(), 13, true, 5);
    logger
}

#[test]
fn host_levels_map_to_severities() {
    assert_eq!(convert_dolphin_log_level_to_tracing_level(2), Level::Error);
    assert_eq!(convert_dolphin_log_level_to_tracing_level(3), Level::Warn);
    assert_eq!(convert_dolphin_log_level_to_tracing_level(4), Level::Info);
    assert_eq!(convert_dolphin_log_level_to_tracing_level(5), Level::Debug);
    assert_eq!(convert_dolphin_log_level_to_tracing_level(1), Level::Debug);
    assert_eq!(convert_dolphin_log_level_to_tracing_level(0), Level::Debug);
    assert_eq!(convert_dolphin_log_level_to_tracing_level(-7), Level::Debug);
    assert_eq!(convert_dolphin_log_level_to_tracing_level(i32::MAX), Level::Debug);
}

#[test]
fn categories_have_their_names() {
    assert_eq!(DEPENDENCIES, "SLIPPI_RUST_DEPENDENCIES");
    assert_eq!(EXI, "SLIPPI_RUST_EXI");
    assert_eq!(GAME_REPORTER, "SLIPPI_RUST_GAME_REPORTER");
    assert_eq!(JUKEBOX, "SLIPPI_RUST_JUKEBOX");
}

#[test]
fn subscriber_is_installed_once() {
    let mut logger = Logger::new();
    assert!(!logger.installed);
    assert!(init(&mut logger));
    assert!(logger.installed);
    register_container(&mut logger, EXI.to_string(), 1, true, 4);
    assert!(!init(&mut logger));
    assert!(!init(&mut logger));
    assert!(logger.installed);
    assert_eq!(logger.containers.len(), 1);
}

#[test]
fn containers_are_registered_in_order() {
    let logger = registered();
    assert_eq!(logger.containers.len(), 4);
    assert_eq!(logger.containers[0].kind, DEPENDENCIES);
    assert_eq!(logger.containers[0].log_type, 10);
    assert!(logger.containers[0].is_enabled);
    assert_eq!(logger.containers[0].level, Level::Info);
    assert_eq!(logger.containers[1].kind, EXI);
    assert!(!logger.containers[1].is_enabled);
    assert_eq!(logger.containers[1].level, Level::Error);
    assert_eq!(logger.containers[3].log_type, 13);
    assert_eq!(logger.containers[3].level, Level::Debug);
}

#[test]
fn update_changes_the_first_container_of_the_kind() {
    let mut logger = registered();
    update_container(&mut logger, EXI, true, 3);
    assert!(logger.containers[1].is_enabled);
    assert_eq!(logger.containers[1].level, Level::Warn);
    assert_eq!(logger.containers[1].log_type, 11);
    assert_eq!(logger.containers[3].level, Level::Debug);
    assert!(logger.containers[3].is_enabled);
    assert_eq!(logger.containers[0].level, Level::Info);
    assert_eq!(logger.containers[2].level, Level::Warn);
    assert_eq!(logger.containers.len(), 4);
}

#[test]
fn update_of_an_unknown_kind_changes_nothing() {
    let mut logger = registered();
    update_container(&mut logger, JUKEBOX, false, 2);
    update_container(&mut logger, "", false, 2);
    assert!(logger.containers[0].is_enabled);
    assert!(!logger.containers[1].is_enabled);
    assert!(logger.containers[2].is_enabled);
    assert!(logger.containers[3].is_enabled);
    assert_eq!(logger.containers[0].level, Level::Info);
    assert_eq!(logger.containers[1].level, Level::Error);
    assert_eq!(logger.containers[2].level, Level::Warn);
    assert_eq!(logger.containers[3].level, Level::Debug);
}

#[test]
fn mainline_level_is_set_for_all() {
    let mut logger = registered();
    mainline_update_log_level(&mut logger, 2);
    for (i, container) in logger.containers.iter().enumerate() {
        assert_eq!(container.level, Level::Error);
        assert_eq!(container.log_type, 10 + i as i32);
    }
    assert!(!logger.containers[1].is_enabled);
    assert!(logger.containers[0].is_enabled);
    let mut empty = Logger::new();
    mainline_update_log_level(&mut empty, 2);
    assert!(empty.containers.is_empty());
}

#[test]
fn event_goes_to_the_container_of_its_target() {
    let logger = registered();
    let layer = DolphinLoggerLayer::new();
    assert_eq!(
        layer.on_event(&logger.containers, GAME_REPORTER, Level::Info),
        LogRoute::Forward { log_level: 4, log_type: 12 }
    );
    assert_eq!(
        layer.on_event(&logger.containers, GAME_REPORTER, Level::Warn),
        LogRoute::Forward { log_level: 3, log_type: 12 }
    );
    assert_eq!(
        layer.on_event(&logger.containers, GAME_REPORTER, Level::Error),
        LogRoute::Forward { log_level: 2, log_type: 12 }
    );
    assert_eq!(
        layer.on_event(&logger.containers, GAME_REPORTER, Level::Debug),
        LogRoute::Forward { log_level: 5, log_type: 12 }
    );
    assert_eq!(
        layer.on_event(&logger.containers, GAME_REPORTER, Level::Trace),
        LogRoute::Forward { log_level: 5, log_type: 12 }
    );
}

#[test]
fn unknown_target_falls_back_to_dependencies() {
    let logger = registered();
    let layer = DolphinLoggerLayer::new();
    assert_eq!(
        layer.on_event(&logger.containers, "ureq::unit", Level::Debug),
        LogRoute::Forward { log_level: 5, log_type: 10 }
    );
    assert_eq!(
        layer.on_event(&logger.containers, JUKEBOX, Level::Info),
        LogRoute::Forward { log_level: 4, log_type: 10 }
    );
}

#[test]
fn disabled_container_discards() {
    let mut logger = registered();
    let layer = DolphinLoggerLayer::new();
    assert_eq!(layer.on_event(&logger.containers, EXI, Level::Error), LogRoute::Discard);
    update_container(&mut logger, DEPENDENCIES, false, 4);
    assert_eq!(layer.on_event(&logger.containers, "other", Level::Error), LogRoute::Discard);
    assert_eq!(
        layer.on_event(&logger.containers, GAME_REPORTER, Level::Error),
        LogRoute::Forward { log_level: 2, log_type: 12 }
    );
}

#[test]
fn no_container_means_no_handler() {
    let layer = DolphinLoggerLayer::new();
    let mut logger = Logger::new();
    assert_eq!(layer.on_event(&logger.containers, EXI, Level::Error), LogRoute::NoHandler);
    register_container(&mut logger, EXI.to_string(), 11, true, 2);
    assert_eq!(layer.on_event(&logger.containers, JUKEBOX, Level::Error), LogRoute::NoHandler);
    assert_eq!(
        layer.on_event(&logger.containers, EXI, Level::Error),
        LogRoute::Forward { log_level: 2, log_type: 11 }
    );
}

#[test]
fn line_starts_with_time_place_and_category() {
    let visitor = DolphinLoggerVisitor::new("src/lib.rs", 42, Level::Info, EXI, 5, 9, 123);
    assert_eq!(visitor.0, "05:09:123 src/lib.rs:42 INFO[SLIPPI_RUST_EXI]: ");
    let visitor = DolphinLoggerVisitor::new("", 0, Level::Error, "X", 59, 10, 7);
    assert_eq!(visitor.0, "59:10:7 :0 ERROR[X]: ");
    let visitor = DolphinLoggerVisitor::new("a.rs", u32::MAX, Level::Warn, "", 0, 0, 0);
    assert_eq!(visitor.0, "00:00:0 a.rs:4294967295 WARN[]: ");
    assert_eq!(DolphinLoggerVisitor::new("f", 1, Level::Debug, "c", 10, 9, 999).0, "10:09:999 f:1 DEBUG[c]: ");
    assert_eq!(DolphinLoggerVisitor::new("f", 1, Level::Trace, "c", 9, 59, 50).0, "09:59:50 f:1 TRACE[c]: ");
}

#[test]
fn fields_are_written_in_order() {
    let mut visitor = DolphinLoggerVisitor(String::new());
    visitor.record_str("message", "Creating Device");
    visitor.record_u64("ptr", 140234);
    visitor.record_i64("delta", -5);
    visitor.record_bool("ok", true);
    visitor.record_bool("last", false);
    visitor.record_i128("low", i128::MIN);
    visitor.record_u128("high", u128::MAX);
    visitor.record_i64("zero", 0);
    assert_eq!(
        visitor.finish(),
        "message=Creating Device ptr=140234 delta=-5 ok=true last=false \
         low=-170141183460469231731687303715884105728 \
         high=340282366920938463463374607431768211455 zero=0 \n"
    );
}

#[test]
fn finished_line_ends_with_a_newline() {
    assert_eq!(DolphinLoggerVisitor(String::new()).finish(), "\n");
    assert_eq!(DolphinLoggerVisitor("abc".to_string()).finish(), "abc\n");
}

#[test]
fn line_with_nul_is_not_handed_to_the_host() {
    assert_eq!(host_line("fine\n".to_string()), Some("fine\n".to_string()));
    assert_eq!(host_line("not\0fine\n".to_string()), None);
    assert_eq!(host_line(String::new()), Some(String::new()));
}

#[test]
fn decimals_are_written_without_leading_zeros() {
    let mut buffer = "n=".to_string();
    append_decimal(&mut buffer, 0);
    append_decimal(&mut buffer, 7);
    append_decimal(&mut buffer, 10);
    append_decimal(&mut buffer, 1_000_000_007);
    assert_eq!(buffer, "n=07101000000007");
    let mut buffer = String::new();
    append_signed_decimal(&mut buffer, -1);
    append_signed_decimal(&mut buffer, 0);
    append_signed_decimal(&mut buffer, i128::MAX);
    assert_eq!(buffer, "-10170141183460469231731687303715884105727");
    for d in 0..10u8 {
        assert_eq!(digit_str(d), d.to_string());
    }
}

#[test]
fn nul_bytes_are_found() {
    assert!(!has_nul(""));
    assert!(!has_nul("abc"));
    assert!(has_nul("\0"));
    assert!(has_nul("ab\0"));
}
