//! Startup settings: the window to open and where logging goes.
use log::LevelFilter;
use vstd::prelude::*;

verus! {

#[verifier::external_type_specification]
pub struct ExLevelFilter(LevelFilter);

/// Relies on `log::LevelFilter`'s derived `Clone`, which copies the variant
/// (the type is `Copy`).
pub assume_specification[ <LevelFilter as Clone>::clone ](f: &LevelFilter) -> (r: LevelFilter)
    ensures
        r == *f,
;

/// Size and decorations of the window to open.
#[derive(Clone, Copy, Debug, PartialEq, Eq, Structural)]
pub struct WindowConfig {
    pub width: u32,
    pub height: u32,
    pub decorations: bool,
}

impl Default for WindowConfig {
    /// An 800 by 600 window with decorations.
    fn default() -> (r: Self)
        ensures
            r == (WindowConfig { width: 800, height: 600, decorations: true }),
    {
        WindowConfig { width: 800, height: 600, decorations: true }
    }
}

/// Where log records go and which levels pass.
#[derive(Clone, Debug)]
pub struct LoggingConfig {
    pub log_file: Option<String>,
    pub log_stdout: bool,
    pub level_filter: LevelFilter,
}

impl Default for LoggingConfig {
    /// No log file, records to standard output, debug level and above.
    fn default() -> (r: Self)
        ensures
            r.log_file is None,
            r.log_stdout,
            r.level_filter == LevelFilter::Debug,
    {
        LoggingConfig { log_file: None, log_stdout: true, level_filter: LevelFilter::Debug }
    }
}

/// All startup settings.
#[derive(Clone, Debug)]
pub struct Config {
    pub window: WindowConfig,
    pub logging: LoggingConfig,
}

impl Default for Config {
    /// The default window and logging settings.
    fn default() -> (r: Self)
        ensures
            r.window == (WindowConfig { width: 800, height: 600, decorations: true }),
            r.logging.log_file is None,
            r.logging.log_stdout,
            r.logging.level_filter == LevelFilter::Debug,
    {
        Config { window: WindowConfig::default(), logging: LoggingConfig::default() }
    }
}

} // verus!
