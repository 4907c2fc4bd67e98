//! Platform background-execution adapters: what each platform can promise
//! about keeping the agent alive, and the operations the shell bridges
//! implement. The desktop adapter's service management is operating-system
//! work and lives with the embedding application; the mobile adapters are
//! pure descriptions of each platform's constraints.

use vstd::prelude::*;

verus! {

#[derive(Debug, Clone, Copy, PartialEq, Eq, Structural)]
pub struct BackgroundCapabilities {
    pub supports_always_on: bool,
    pub requires_ongoing_notification: bool,
    pub best_effort_only: bool,
}

/// What a platform's background bridge must offer. Implementations that
/// talk to an operating system live with the embedding application.
pub trait PlatformBackground {
    fn platform_name(&self) -> &'static str;

    fn capabilities(&self) -> BackgroundCapabilities;

    fn enable_background_mode(&self) -> Result<(), String>;

    fn disable_background_mode(&self) -> Result<(), String>;

    fn schedule_wakeup(&self, reason: &str) -> Result<(), String>;
}

/// The desktop adapter's configuration; its service management is performed
/// by the embedding application.
pub struct DesktopBackgroundAdapter {
    pub config_path: String,
    pub workspace_dir: String,
}

impl DesktopBackgroundAdapter {
    pub fn new(config_path: String, workspace_dir: String) -> (r: Self)
        ensures
            r.config_path@ == config_path@,
            r.workspace_dir@ == workspace_dir@,
    {
        DesktopBackgroundAdapter { config_path, workspace_dir }
    }
}

pub struct AndroidBackgroundAdapter;

impl PlatformBackground for AndroidBackgroundAdapter {
    fn platform_name(&self) -> &'static str {
        "android"
    }

    fn capabilities(&self) -> BackgroundCapabilities {
        BackgroundCapabilities {
            supports_always_on: false,
            requires_ongoing_notification: true,
            best_effort_only: false,
        }
    }

    fn enable_background_mode(&self) -> Result<(), String> {
        Err(
            "android background mode requires a native foreground-service bridge and explicit user action".to_owned(),
        )
    }

    fn disable_background_mode(&self) -> Result<(), String> {
        Err("android background mode is controlled by the mobile shell bridge".to_owned())
    }

    fn schedule_wakeup(&self, reason: &str) -> Result<(), String> {
        Err("android wake scheduling should be implemented via WorkManager bridge".to_owned())
    }
}

pub struct IosBackgroundAdapter;

impl PlatformBackground for IosBackgroundAdapter {
    fn platform_name(&self) -> &'static str {
        "ios"
    }

    fn capabilities(&self) -> BackgroundCapabilities {
        BackgroundCapabilities {
            supports_always_on: false,
            requires_ongoing_notification: false,
            best_effort_only: true,
        }
    }

    fn enable_background_mode(&self) -> Result<(), String> {
        Err(
            "ios background execution is best-effort and requires BGTaskScheduler bridge".to_owned(),
        )
    }

    fn disable_background_mode(&self) -> Result<(), String> {
        Ok(())
    }

    fn schedule_wakeup(&self, reason: &str) -> Result<(), String> {
        Err("ios wake scheduling should be implemented via BGTaskScheduler in app shell".to_owned())
    }
}

} // verus!
