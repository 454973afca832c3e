use wasm_tracing::Level;

const LEVELS: [Level; 5] = [Level::TRACE, Level::DEBUG, Level::INFO, Level::WARN, Level::ERROR];

#[test]
fn level_names() {
    assert_eq!(Level::TRACE.as_str(), "TRACE");
    assert_eq!(Level::DEBUG.as_str(), "DEBUG");
    assert_eq!(Level::INFO.as_str(), "INFO");
    assert_eq!(Level::WARN.as_str(), "WARN");
    assert_eq!(Level::ERROR.as_str(), "ERROR");
}

#[test]
fn level_colours() {
    assert_eq!(Level::TRACE.console_style(), "color: dodgerblue; background: #444");
    assert_eq!(Level::DEBUG.console_style(), "color: lawngreen; background: #444");
    assert_eq!(Level::INFO.console_style(), "color: whitesmoke; background: #444");
    assert_eq!(Level::WARN.console_style(), "color: orange; background: #444");
    assert_eq!(Level::ERROR.console_style(), "color: red; background: #444");
}

#[test]
fn level_ranks_rise_with_severity() {
    for (i, level) in LEVELS.iter().enumerate() {
        assert_eq!(level.rank() as usize, i);
    }
}

#[test]
fn a_filter_lets_through_what_is_at_least_as_severe() {
    for (i, max) in LEVELS.iter().enumerate() {
        for (j, level) in LEVELS.iter().enumerate() {
            assert_eq!(max.allows(*level), i <= j, "max {:?}, level {:?}", max, level);
        }
    }
}

#[test]
fn warn_filter() {
    assert!(!Level::WARN.allows(Level::TRACE));
    assert!(!Level::WARN.allows(Level::DEBUG));
    assert!(!Level::WARN.allows(Level::INFO));
    assert!(Level::WARN.allows(Level::WARN));
    assert!(Level::WARN.allows(Level::ERROR));
}

#[test]
fn levels_agree_with_the_tracing_framework() {
    let pairs = [
        (Level::TRACE, tracing::Level::TRACE),
        (Level::DEBUG, tracing::Level::DEBUG),
        (Level::INFO, tracing::Level::INFO),
        (Level::WARN, tracing::Level::WARN),
        (Level::ERROR, tracing::Level::ERROR),
    ];
    for (level, theirs) in pairs {
        assert_eq!(level.as_str(), theirs.to_string());
        assert_eq!(level.as_str(), format!("{}", theirs));
    }
    for (max, their_max) in pairs {
        for (level, their_level) in pairs {
            assert_eq!(max.allows(level), their_level <= their_max);
        }
    }
}
