use vstd::prelude::*;

use crate::config::{config_choice_spec, config_or_default, ConfigChoice, UserConfig};
use crate::local_time::LocalDateTime;
use crate::report::{build_report, report_rows, ReportEntry};
use crate::schedule::{compute_schedule, is_schedule_for, schedule_fits, Schedule};
use crate::session::{resolve_spec, resolve_start_time, StartResolution, WorkSession};

verus! {

/// Everything one run decides: the configuration to use, the day's start, its
/// schedule and the rows to show.
pub struct DayReport {
    pub config: ConfigChoice,
    pub resolution: StartResolution,
    pub schedule: Schedule,
    pub entries: Vec<ReportEntry>,
}

/// Works out the day from what storage held (`None` for a record that was
/// missing or unreadable), the current time and the boot time. `None` when the
/// rounded start or the end of day falls outside the days a `LocalDateTime`
/// holds.
pub fn plan_day(
    loaded_config: Option<UserConfig>,
    stored: Option<WorkSession>,
    now: LocalDateTime,
    boot: LocalDateTime,
) -> (r: Option<DayReport>)
    requires
        stored matches Some(s) ==> s.start_time.wf(),
        now.wf(),
        boot.wf(),
    ensures
        ({
            let config = config_choice_spec(loaded_config);
            let resolution = resolve_spec(stored, now, boot);
            &&& r.is_some() == schedule_fits(
                resolution.start_time,
                config.config.work_minutes,
                config.config.break_minutes,
            )
            &&& r matches Some(d) ==> {
                &&& d.config == config
                &&& d.resolution == resolution
                &&& is_schedule_for(
                    d.schedule,
                    resolution.start_time,
                    config.config.work_minutes,
                    config.config.break_minutes,
                    now,
                )
                &&& d.entries@.map_values(|e: ReportEntry| e@) == report_rows(
                    resolution,
                    config.config,
                    d.schedule,
                )
            }
        }),
{
    let config = config_or_default(loaded_config);
    let resolution = resolve_start_time(stored, now, boot);
    let schedule = match compute_schedule(
        resolution.start_time,
        config.config.work_minutes,
        config.config.break_minutes,
        now,
    ) {
        Some(s) => s,
        None => {
            return None;
        },
    };
    let entries = build_report(&resolution, &config.config, &schedule);
    Some(DayReport { config, resolution, schedule, entries })
}

} // verus!
