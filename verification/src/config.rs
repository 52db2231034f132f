//! Per-line settings and how they are resolved from a configuration file's
//! defaults and overrides.

use crate::decimal::Millionths;
use vstd::prelude::*;

verus! {

/// The ping count of a line that sets none and has no default.
pub const DEFAULT_PING_COUNT: u32 = 5;

/// The ping timeout, in milliseconds, of a line that sets none and has no
/// default.
pub const DEFAULT_PING_TIMEOUT_MS: u64 = 1_000;

/// The hop limit of a line that sets none and has no default.
pub const DEFAULT_TRACEROUTE_MAX_HOPS: u8 = 30;

/// The packet-loss alert threshold of a line that sets none and has no
/// default, in millionths of a percent: one percent.
pub const DEFAULT_PACKET_LOSS_ALERT_THRESHOLD: u64 = 1_000_000;

/// All the lines to probe in one run.
#[derive(Debug)]
pub struct Config {
    pub lines: Vec<LineSettings>,
}

/// The fully resolved settings of one line.
#[derive(Debug, Clone)]
pub struct LineSettings {
    pub name: String,
    pub target: String,
    pub ping_count: u32,
    pub ping_timeout_ms: u64,
    pub traceroute_max_hops: u8,
    /// Packet loss, in percent, above which the line raises an alert.
    pub packet_loss_alert_threshold: Millionths,
}

/// A configuration file as written: optional defaults, then the lines.
#[derive(Debug)]
pub struct FileConfig {
    pub defaults: LineDefaults,
    pub lines: Vec<LineConfig>,
}

/// The values that lines fall back to where they set none of their own.
#[derive(Debug)]
pub struct LineDefaults {
    pub ping_count: Option<u32>,
    pub ping_timeout_ms: Option<u64>,
    pub traceroute_max_hops: Option<u8>,
    pub packet_loss_alert_threshold: Option<Millionths>,
}

/// One line as written in a configuration file.
#[derive(Debug)]
pub struct LineConfig {
    pub name: String,
    pub target: String,
    pub ping_count: Option<u32>,
    pub ping_timeout_ms: Option<u64>,
    pub traceroute_max_hops: Option<u8>,
    pub packet_loss_alert_threshold: Option<Millionths>,
}

/// Why a configuration cannot be used.
#[derive(Debug, PartialEq, Eq, Structural)]
pub enum ConfigError {
    /// The configuration names no line at all.
    NoLines,
}

/// The line's own value where it has one, else the default, else the
/// built-in value.
pub open spec fn resolve<T>(own: Option<T>, default: Option<T>, builtin: T) -> T {
    match own {
        Some(value) => value,
        None => match default {
            Some(value) => value,
            None => builtin,
        },
    }
}

fn pick<T>(own: Option<T>, default: Option<T>, builtin: T) -> (value: T)
    ensures
        value == resolve(own, default, builtin),
{
    match own {
        Some(value) => value,
        None => match default {
            Some(value) => value,
            None => builtin,
        },
    }
}

impl Default for LineDefaults {
    /// Defaults that set nothing.
    fn default() -> (defaults: LineDefaults)
        ensures
            defaults.ping_count is None,
            defaults.ping_timeout_ms is None,
            defaults.traceroute_max_hops is None,
            defaults.packet_loss_alert_threshold is None,
    {
        LineDefaults {
            ping_count: None,
            ping_timeout_ms: None,
            traceroute_max_hops: None,
            packet_loss_alert_threshold: None,
        }
    }
}

impl LineDefaults {
    /// The settings that `line` resolves to under these defaults.
    pub open spec fn applied(self, line: LineConfig) -> LineSettings {
        LineSettings {
            name: line.name,
            target: line.target,
            ping_count: resolve(line.ping_count, self.ping_count, DEFAULT_PING_COUNT),
            ping_timeout_ms: resolve(
                line.ping_timeout_ms,
                self.ping_timeout_ms,
                DEFAULT_PING_TIMEOUT_MS,
            ),
            traceroute_max_hops: resolve(
                line.traceroute_max_hops,
                self.traceroute_max_hops,
                DEFAULT_TRACEROUTE_MAX_HOPS,
            ),
            packet_loss_alert_threshold: resolve(
                line.packet_loss_alert_threshold,
                self.packet_loss_alert_threshold,
                Millionths(DEFAULT_PACKET_LOSS_ALERT_THRESHOLD),
            ),
        }
    }

    /// Resolves one line: each setting is the line's own value, else the
    /// default, else the built-in value.
    pub fn apply(&self, line: &LineConfig) -> (settings: LineSettings)
        ensures
            settings == self.applied(*line),
    {
        LineSettings {
            name: line.name.clone(),
            target: line.target.clone(),
            ping_count: pick(line.ping_count, self.ping_count, DEFAULT_PING_COUNT),
            ping_timeout_ms: pick(
                line.ping_timeout_ms,
                self.ping_timeout_ms,
                DEFAULT_PING_TIMEOUT_MS,
            ),
            traceroute_max_hops: pick(
                line.traceroute_max_hops,
                self.traceroute_max_hops,
                DEFAULT_TRACEROUTE_MAX_HOPS,
            ),
            packet_loss_alert_threshold: pick(
                line.packet_loss_alert_threshold,
                self.packet_loss_alert_threshold,
                Millionths(DEFAULT_PACKET_LOSS_ALERT_THRESHOLD),
            ),
        }
    }
}

/// Resolves a parsed configuration file into the lines of a run, in the order
/// in which the file names them. A file without lines is refused.
pub fn load_config(parsed: &FileConfig) -> (loaded: Result<Config, ConfigError>)
    ensures
        parsed.lines@.len() == 0 <==> loaded == Err::<Config, ConfigError>(ConfigError::NoLines),
        parsed.lines@.len() > 0 <==> loaded is Ok,
        loaded matches Ok(config) ==> {
            &&& config.lines@.len() == parsed.lines@.len()
            &&& forall|i: int|
                0 <= i < parsed.lines@.len() ==> #[trigger] config.lines@[i]
                    == parsed.defaults.applied(parsed.lines@[i])
        },
{
    if parsed.lines.len() == 0 {
        return Err(ConfigError::NoLines);
    }
    let mut lines: Vec<LineSettings> = Vec::new();
    let mut i: usize = 0;
    while i < parsed.lines.len()
        invariant
            i <= parsed.lines@.len(),
            lines@.len() == i,
            forall|k: int|
                0 <= k < i ==> #[trigger] lines@[k] == parsed.defaults.applied(parsed.lines@[k]),
        decreases parsed.lines@.len() - i,
    {
        lines.push(parsed.defaults.apply(&parsed.lines[i]));
        i += 1;
    }
    Ok(Config { lines })
}

} // verus!
