use zero2prod::logging::{Level, SimpleLogger};

#[test]
fn info_and_more_severe_levels_are_enabled() {
    let logger = SimpleLogger;
    assert!(logger.enabled(Level::Error));
    assert!(logger.enabled(Level::Warn));
    assert!(logger.enabled(Level::Info));
    assert!(!logger.enabled(Level::Debug));
    assert!(!logger.enabled(Level::Trace));
}
