//! What is settled once, at process entry, before any session: how the
//! diagnostic sink and the profiler are set up.

use crate::notice::Severity;
use vstd::prelude::*;

verus! {

/// The options of the diagnostic sink.
#[derive(Clone, Debug, PartialEq, Eq)]
pub struct SinkOptions {
    /// The least severity that is logged where the environment asks for
    /// nothing else.
    pub default_level: Severity,
    /// Whether everything that is logged is written to the error stream as
    /// well.
    pub duplicate_to_stderr: bool,
    /// The directory, relative to the working directory, that log files go
    /// to; `None` where nothing is logged to a file.
    pub log_directory: Option<String>,
}

/// How the profiler filters what it measures.
#[derive(Clone, Debug, PartialEq, Eq)]
pub enum ProfilingFilter {
    /// Nothing is measured.
    Disabled,
    /// What this specification selects is measured.
    Spec(String),
}

/// All that is settled at process entry.
#[derive(Clone, Debug, PartialEq, Eq)]
pub struct StartupConfig {
    /// How much of a backtrace is captured; set by the process itself, never
    /// read from the environment.
    pub backtrace: String,
    pub sink: SinkOptions,
    pub profiling: ProfilingFilter,
}

/// Whether the log-directory toggle asks for a log file: it is set, and to
/// nothing but `1`.
pub open spec fn asks_for_log_file(toggle: Option<String>) -> bool {
    toggle is Some && toggle->0@ == "1"@
}

/// Settles the startup configuration from the two values that the
/// environment supplies: the log-directory toggle and the specification of
/// the profiling filter, each `None` where it is not set.
///
/// The sink logs errors only and copies everything to the error stream. It
/// logs to a file under `log` exactly when the toggle is `1`. The profiler
/// takes the specification where there is one and is disabled where there
/// is none. Backtraces are short.
pub fn startup_config(log_dir_toggle: Option<String>, profiling_spec: Option<String>) -> (config:
    StartupConfig)
    ensures
        config.backtrace@ == "short"@,
        config.sink.default_level == Severity::Error,
        config.sink.duplicate_to_stderr,
        config.sink.log_directory is Some <==> asks_for_log_file(log_dir_toggle),
        config.sink.log_directory is Some ==> config.sink.log_directory->0@ == "log"@,
        profiling_spec is Some ==> config.profiling == ProfilingFilter::Spec(profiling_spec->0),
        profiling_spec is None ==> config.profiling == ProfilingFilter::Disabled,
{
    let to_file = match &log_dir_toggle {
        Some(value) => {
            let sentinel = "1".to_owned();
            *value == sentinel
        },
        None => false,
    };
    let log_directory = if to_file {
        Some("log".to_owned())
    } else {
        None
    };
    let profiling = match profiling_spec {
        Some(spec) => ProfilingFilter::Spec(spec),
        None => ProfilingFilter::Disabled,
    };
    StartupConfig {
        backtrace: "short".to_owned(),
        sink: SinkOptions {
            default_level: Severity::Error,
            duplicate_to_stderr: true,
            log_directory,
        },
        profiling,
    }
}

} // verus!
