use vstd::prelude::*;

use crate::config::UserConfig;
use crate::schedule::{DayStatus, Schedule};
use crate::session::StartResolution;
use crate::text::{create_duration_string, duration_text, format_hm, format_hms, hm_text, hms_text};

verus! {

/// How a row of the report is shown.
#[derive(Clone, Copy, Debug, PartialEq, Eq, Structural)]
pub enum EntryStyle {
    Blue,
    Cyan,
    Dimmed,
    Green,
    Magenta,
    Yellow,
    Red,
    Bold,
}

/// One row of the report: a label, its value and how it is shown.
/// A row labelled `---` is a separator; a row with an empty label is a
/// free-standing line.
#[derive(Clone, Debug)]
pub struct ReportEntry {
    pub label: String,
    pub value: String,
    pub style: EntryStyle,
}

/// The text and style of a report row.
pub struct EntryView {
    pub label: Seq<char>,
    pub value: Seq<char>,
    pub style: EntryStyle,
}

impl View for ReportEntry {
    type V = EntryView;

    open spec fn view(&self) -> EntryView {
        EntryView { label: self.label@, value: self.value@, style: self.style }
    }
}

/// Label of the separator rows.
pub const SEPARATOR_LABEL: &'static str = "---";

/// Value of the separator rows.
pub const SEPARATOR_LINE: &'static str = "-----------------------------------";

/// Label of the row that shows where the start time came from.
pub open spec fn source_label(is_restored: bool) -> Seq<char> {
    if is_restored {
        "Restored Start"@
    } else {
        "System Start"@
    }
}

/// A row as text.
pub open spec fn row(label: Seq<char>, value: Seq<char>, style: EntryStyle) -> EntryView {
    EntryView { label, value, style }
}

/// The separator row.
pub open spec fn separator_row() -> EntryView {
    row(SEPARATOR_LABEL@, SEPARATOR_LINE@, EntryStyle::Dimmed)
}

/// The closing rows: what is left of the day, or that the goal is reached.
pub open spec fn status_rows(status: DayStatus) -> Seq<EntryView> {
    match status {
        DayStatus::InProgress { remaining_minutes } => seq![
            row("Remaining"@, duration_text(remaining_minutes as nat), EntryStyle::Yellow),
        ],
        DayStatus::Completed => seq![
            row("Remaining"@, "DONE! \u{1F389}"@, EntryStyle::Red),
            row(""@, "You have reached your goal for today."@, EntryStyle::Bold),
        ],
    }
}

/// The rows of the report, in order.
pub open spec fn report_rows(
    resolution: StartResolution,
    config: UserConfig,
    schedule: Schedule,
) -> Seq<EntryView> {
    seq![
        row(source_label(resolution.is_restored), hms_text(resolution.start_time), EntryStyle::Blue),
        row("Rounded Start"@, hm_text(schedule.rounded_start), EntryStyle::Cyan),
        separator_row(),
        row("Target Work Time"@, duration_text(config.work_minutes as nat), EntryStyle::Green),
        row("Break Time"@, duration_text(config.break_minutes as nat), EntryStyle::Green),
        row("End of Day"@, hm_text(schedule.end_of_day), EntryStyle::Magenta),
        separator_row(),
    ] + status_rows(schedule.status)
}

fn entry(label: &str, value: String, style: EntryStyle) -> (r: ReportEntry)
    ensures
        r@ == row(label@, value@, style),
{
    ReportEntry { label: String::from_str(label), value, style }
}

fn separator() -> (r: ReportEntry)
    ensures
        r@ == separator_row(),
{
    entry(SEPARATOR_LABEL, String::from_str(SEPARATOR_LINE), EntryStyle::Dimmed)
}

/// The report rows for the resolved start, the configuration and the day's
/// schedule.
pub fn build_report(resolution: &StartResolution, config: &UserConfig, schedule: &Schedule) -> (r:
    Vec<ReportEntry>)
    requires
        resolution.start_time.wf(),
        schedule.rounded_start.wf(),
        schedule.end_of_day.wf(),
    ensures
        r@.map_values(|e: ReportEntry| e@) == report_rows(*resolution, *config, *schedule),
{
    let mut entries: Vec<ReportEntry> = Vec::new();
    let label = if resolution.is_restored {
        "Restored Start"
    } else {
        "System Start"
    };
    entries.push(entry(label, format_hms(&resolution.start_time), EntryStyle::Blue));
    entries.push(entry("Rounded Start", format_hm(&schedule.rounded_start), EntryStyle::Cyan));
    entries.push(separator());
    entries.push(
        entry(
            "Target Work Time",
            create_duration_string(config.work_minutes as u64),
            EntryStyle::Green,
        ),
    );
    entries.push(
        entry("Break Time", create_duration_string(config.break_minutes as u64), EntryStyle::Green),
    );
    entries.push(entry("End of Day", format_hm(&schedule.end_of_day), EntryStyle::Magenta));
    entries.push(separator());
    match schedule.status {
        DayStatus::InProgress { remaining_minutes } => {
            entries.push(
                entry("Remaining", create_duration_string(remaining_minutes), EntryStyle::Yellow),
            );
        },
        DayStatus::Completed => {
            entries.push(entry("Remaining", String::from_str("DONE! \u{1F389}"), EntryStyle::Red));
            entries.push(
                entry(
                    "",
                    String::from_str("You have reached your goal for today."),
                    EntryStyle::Bold,
                ),
            );
        },
    }
    assert(entries@.map_values(|e: ReportEntry| e@) =~= report_rows(
        *resolution,
        *config,
        *schedule,
    ));
    entries
}

} // verus!
