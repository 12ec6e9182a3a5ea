//! Runtime configuration and its built-in defaults.

use vstd::prelude::*;

verus! {

/// Settings that are not tied to one detection mode.
#[derive(Debug, Clone)]
pub struct GeneralConfig {
    pub autostart: bool,
    /// Seconds between polls while no alert is active.
    pub sample_interval_normal: u64,
    /// Seconds between polls while alerts are being raised.
    pub sample_interval_alert: u64,
    pub notification_method: String,
}

/// Sustained high CPU usage.
#[derive(Debug, Clone, Copy, PartialEq, Eq)]
pub struct CpuDetectionConfig {
    pub enabled: bool,
    pub threshold_percent: u8,
    pub duration_seconds: u64,
}

/// Processes stuck in a blocked or stopped state.
#[derive(Debug, Clone, Copy, PartialEq, Eq)]
pub struct HangDetectionConfig {
    pub enabled: bool,
    pub duration_seconds: u64,
}

/// Memory growth over a trailing window.
#[derive(Debug, Clone, Copy, PartialEq, Eq)]
pub struct MemoryDetectionConfig {
    pub enabled: bool,
    pub growth_mb: u64,
    pub window_minutes: u64,
}

/// Maximum-runtime rules.
#[derive(Debug, Clone, Copy, PartialEq, Eq)]
pub struct TimeoutDetectionConfig {
    pub enabled: bool,
}

/// Thresholds and durations of every detection mode.
#[derive(Debug, Clone, Copy, PartialEq, Eq)]
pub struct DetectionConfig {
    pub cpu: CpuDetectionConfig,
    pub hang: HangDetectionConfig,
    pub memory: MemoryDetectionConfig,
    pub timeout: TimeoutDetectionConfig,
}

/// Behaviour learning.
#[derive(Debug, Clone, Copy, PartialEq, Eq)]
pub struct LearningConfig {
    pub enabled: bool,
    pub min_history_days: u64,
    pub suggest_whitelist: bool,
}

/// A user-defined rule for processes matching a pattern.
#[derive(Debug, Clone)]
pub struct Rule {
    pub name: String,
    pub pattern: String,
    pub match_type: String,
    pub max_runtime_minutes: Option<u64>,
    pub action: Option<String>,
}

/// The whole configuration.
#[derive(Debug, Clone)]
pub struct Config {
    pub general: GeneralConfig,
    pub detection: DetectionConfig,
    pub learning: LearningConfig,
    pub rules: Vec<Rule>,
}

impl DetectionConfig {
    /// The detection settings used when no configuration is available.
    pub open spec fn builtin() -> DetectionConfig {
        DetectionConfig {
            cpu: CpuDetectionConfig { enabled: true, threshold_percent: 90, duration_seconds: 60 },
            hang: HangDetectionConfig { enabled: true, duration_seconds: 30 },
            memory: MemoryDetectionConfig { enabled: true, growth_mb: 500, window_minutes: 5 },
            timeout: TimeoutDetectionConfig { enabled: true },
        }
    }
}

impl Default for Config {
    fn default() -> (config: Config)
        ensures
            config.general.autostart,
            config.general.sample_interval_normal == 10,
            config.general.sample_interval_alert == 2,
            config.general.notification_method@ == "both"@,
            config.detection == DetectionConfig::builtin(),
            config.learning == (LearningConfig {
                enabled: true,
                min_history_days: 7,
                suggest_whitelist: true,
            }),
            config.rules@.len() == 0,
    {
        Config {
            general: GeneralConfig {
                autostart: true,
                sample_interval_normal: 10,
                sample_interval_alert: 2,
                notification_method: "both".to_string(),
            },
            detection: DetectionConfig {
                cpu: CpuDetectionConfig {
                    enabled: true,
                    threshold_percent: 90,
                    duration_seconds: 60,
                },
                hang: HangDetectionConfig { enabled: true, duration_seconds: 30 },
                memory: MemoryDetectionConfig { enabled: true, growth_mb: 500, window_minutes: 5 },
                timeout: TimeoutDetectionConfig { enabled: true },
            },
            learning: LearningConfig { enabled: true, min_history_days: 7, suggest_whitelist: true },
            rules: Vec::new(),
        }
    }
}

} // verus!
