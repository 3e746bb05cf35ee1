//! Whether the command-line tool shows its progress line and its final
//! result line.

use vstd::prelude::*;

use crate::config::{Config, LogLevel};

verus! {

/// The progress line is shown unless progress is hidden, logging is more
/// verbose than warnings (the log takes over the terminal), or logging is
/// in JSON (the progress text would corrupt it).
pub open spec fn progress_indicator_needed(config: Config) -> bool {
    !config.show_no_progress && match config.tracing_config {
        None => true,
        Some(t) => t.tracing_level.rank() <= LogLevel::Warn.rank() && !t.json_tracing,
    }
}

/// The result line is shown unless progress is hidden or logging is in
/// JSON.
pub open spec fn show_result_needed(config: Config) -> bool {
    !config.show_no_progress && match config.tracing_config {
        None => true,
        Some(t) => !t.json_tracing,
    }
}

/// Whether to show the live progress line.
pub fn is_progress_indicator_needed(config: &Config) -> (r: bool)
    ensures
        r == progress_indicator_needed(*config),
{
    if config.show_no_progress {
        return false;
    }
    match &config.tracing_config {
        None => true,
        Some(t) => {
            if LogLevel::Warn.less_verbose_than(t.tracing_level) {
                return false;
            }
            !t.json_tracing
        },
    }
}

/// Whether to show the final result line.
pub fn is_show_result_needed(config: &Config) -> (r: bool)
    ensures
        r == show_result_needed(*config),
{
    if config.show_no_progress {
        return false;
    }
    match &config.tracing_config {
        None => true,
        Some(t) => !t.json_tracing,
    }
}

/// The progress line shows only when the result line shows, and neither
/// shows when progress is hidden or logging is in JSON; the progress line
/// also hides when logging is more verbose than warnings; without logging
/// both show unless progress is hidden.
pub proof fn law_progress_and_result_lines(config: Config)
    ensures
        progress_indicator_needed(config) ==> show_result_needed(config),
        config.show_no_progress ==> !progress_indicator_needed(config) && !show_result_needed(config),
        (config.tracing_config matches Some(t) && t.json_tracing) ==> !progress_indicator_needed(config)
            && !show_result_needed(config),
        (config.tracing_config matches Some(t) && t.tracing_level.rank() > LogLevel::Warn.rank())
            ==> !progress_indicator_needed(config),
        (!config.show_no_progress && config.tracing_config is None) ==> progress_indicator_needed(config)
            && show_result_needed(config),
{
}

} // verus!
