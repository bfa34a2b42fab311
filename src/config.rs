use vstd::prelude::*;

verus! {

/// Default working time per day, in minutes.
pub const DEFAULT_WORK_MINUTES: u32 = 480;

/// Default break time per day, in minutes.
pub const DEFAULT_BREAK_MINUTES: u32 = 45;

/// The user's working and break durations, in minutes.
#[derive(Clone, Copy, Debug, PartialEq, Eq, Structural)]
pub struct UserConfig {
    pub work_minutes: u32,
    pub break_minutes: u32,
}

impl UserConfig {
    /// A usable configuration: some working time is required.
    pub open spec fn wf(self) -> bool {
        self.work_minutes > 0
    }

    /// Whether this configuration is usable: its working time is positive.
    pub fn is_valid(&self) -> (r: bool)
        ensures
            r == self.wf(),
    {
        self.work_minutes > 0
    }

    /// The configuration used when none can be read.
    pub open spec fn default_spec() -> UserConfig {
        UserConfig { work_minutes: DEFAULT_WORK_MINUTES, break_minutes: DEFAULT_BREAK_MINUTES }
    }

    /// Eight hours of work and a 45-minute break.
    pub fn default_config() -> (r: UserConfig)
        ensures
            r == UserConfig::default_spec(),
    {
        UserConfig { work_minutes: DEFAULT_WORK_MINUTES, break_minutes: DEFAULT_BREAK_MINUTES }
    }
}

/// The configuration to use, and whether it has to be written to storage.
#[derive(Clone, Copy, Debug, PartialEq, Eq, Structural)]
pub struct ConfigChoice {
    pub config: UserConfig,
    pub write_default: bool,
}

/// The configuration read from storage if there is one and it is usable,
/// else the defaults, which are then to be written.
pub open spec fn config_choice_spec(loaded: Option<UserConfig>) -> ConfigChoice {
    match loaded {
        Some(c) if c.wf() => ConfigChoice { config: c, write_default: false },
        _ => ConfigChoice { config: UserConfig::default_spec(), write_default: true },
    }
}

/// Uses the configuration read from storage; when there was none, it could not
/// be read, or its working time is zero, falls back to the defaults and asks
/// for them to be written.
pub fn config_or_default(loaded: Option<UserConfig>) -> (r: ConfigChoice)
    ensures
        r == config_choice_spec(loaded),
        r.config.wf(),
        loaded matches Some(c) ==> (c.wf() ==> r.config == c && !r.write_default),
        loaded is None || !loaded.unwrap().wf() ==> r.config == UserConfig::default_spec()
            && r.write_default,
{
    match loaded {
        Some(config) if config.is_valid() => ConfigChoice { config, write_default: false },
        _ => ConfigChoice { config: UserConfig::default_config(), write_default: true },
    }
}

} // verus!
