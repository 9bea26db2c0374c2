use log_bootstrap::install::{init_logger, set_log_level_or_default, BuildProfile};
use log_bootstrap::level::{log_level_from_str, Level};
use log_bootstrap::resolve::{choose_level, config_is_consistent, resolve};

const ALL: [Level; 6] = [
    Level::Off,
    Level::Error,
    Level::Warn,
    Level::Info,
    Level::Debug,
    Level::Trace,
];

const NAMES: [&str; 6] = ["OFF", "ERROR", "WARN", "INFO", "DEBUG", "TRACE"];

#[test]
fn names_read_as_levels() {
    for (name, level) in NAMES.iter().zip(ALL.iter()) {
        assert_eq!(log_level_from_str(name), Some(*level));
    }
}

#[test]
fn names_are_case_sensitive() {
    assert_eq!(log_level_from_str("warn"), None);
    assert_eq!(log_level_from_str("Trace"), None);
    assert_eq!(log_level_from_str(""), None);
    assert_eq!(log_level_from_str("WARN "), None);
    assert_eq!(log_level_from_str("WARNING"), None);
}

#[test]
fn verbosity_follows_the_order() {
    for (i, level) in ALL.iter().enumerate() {
        assert_eq!(level.verbosity() as usize, i);
    }
    assert!(Level::Warn.at_most(&Level::Warn));
    assert!(Level::Error.at_most(&Level::Info));
    assert!(!Level::Trace.at_most(&Level::Debug));
}

#[test]
fn override_within_ceiling_wins() {
    for (i, requested) in NAMES.iter().enumerate() {
        for j in i..6 {
            let r = resolve(Level::Off, ALL[j], Some(requested.to_string()));
            assert_eq!(r, ALL[i]);
        }
    }
}

#[test]
fn override_above_ceiling_gives_default() {
    for (i, requested) in NAMES.iter().enumerate() {
        for j in 0..i {
            let r = resolve(ALL[0], ALL[j], Some(requested.to_string()));
            assert_eq!(r, ALL[0]);
            let r = resolve(ALL[j], ALL[j], Some(requested.to_string()));
            assert_eq!(r, ALL[j]);
        }
    }
}

#[test]
fn unrecognized_override_gives_default() {
    assert_eq!(resolve(Level::Error, Level::Warn, Some("verbose".to_string())), Level::Error);
    assert_eq!(resolve(Level::Info, Level::Trace, Some("debug".to_string())), Level::Info);
    assert_eq!(resolve(Level::Warn, Level::Warn, Some(String::new())), Level::Warn);
}

#[test]
fn default_above_ceiling_is_inconsistent() {
    assert!(!config_is_consistent(Level::Trace, Level::Error));
    assert!(!config_is_consistent(Level::Warn, Level::Off));
    assert!(config_is_consistent(Level::Error, Level::Warn));
    assert!(config_is_consistent(Level::Trace, Level::Trace));
}

#[test]
fn warn_override_at_warn_ceiling() {
    assert_eq!(resolve(Level::Warn, Level::Warn, Some("WARN".to_string())), Level::Warn);
}

#[test]
fn trace_override_refused_below_info_ceiling() {
    assert_eq!(resolve(Level::Error, Level::Info, Some("TRACE".to_string())), Level::Error);
}

#[test]
fn no_override_keeps_trace_default() {
    assert_eq!(resolve(Level::Trace, Level::Trace, None), Level::Trace);
}

#[test]
fn parsed_request_is_checked_against_ceiling() {
    assert_eq!(choose_level(Level::Error, Level::Info, Some(Level::Warn)), Level::Warn);
    assert_eq!(choose_level(Level::Error, Level::Info, Some(Level::Debug)), Level::Error);
    assert_eq!(choose_level(Level::Error, Level::Info, None), Level::Error);
}

#[test]
fn installed_level_reaches_the_facade() {
    let r = set_log_level_or_default(Level::Error, Level::Info, Some("WARN".to_string()));
    assert_eq!(r, Level::Warn);
    assert_eq!(log::max_level(), log::LevelFilter::Warn);
    let r = set_log_level_or_default(Level::Error, Level::Info, Some("TRACE".to_string()));
    assert_eq!(r, Level::Error);
    assert_eq!(log::max_level(), log::LevelFilter::Error);
}

#[test]
fn hardened_build_caps_at_warn() {
    assert_eq!(BuildProfile::ProductionHardened.bounds(), (Level::Error, Level::Warn));
    assert_eq!(init_logger(BuildProfile::ProductionHardened, None), Level::Error);
    assert_eq!(log::max_level(), log::LevelFilter::Error);
    assert_eq!(
        init_logger(BuildProfile::ProductionHardened, Some("WARN".to_string())),
        Level::Warn
    );
    assert_eq!(
        init_logger(BuildProfile::ProductionHardened, Some("DEBUG".to_string())),
        Level::Error
    );
}

#[test]
fn development_build_allows_trace() {
    assert_eq!(BuildProfile::Development.bounds(), (Level::Trace, Level::Trace));
    assert_eq!(init_logger(BuildProfile::Development, None), Level::Trace);
    assert_eq!(log::max_level(), log::LevelFilter::Trace);
    assert_eq!(init_logger(BuildProfile::Development, Some("OFF".to_string())), Level::Off);
    assert_eq!(log::max_level(), log::LevelFilter::Off);
}
