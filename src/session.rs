use vstd::prelude::*;

use crate::local_time::LocalDateTime;

verus! {

/// The one persisted record: when today's workday started.
#[derive(Clone, Copy, Debug, PartialEq, Eq, Structural)]
pub struct WorkSession {
    pub start_time: LocalDateTime,
}

/// What resolving the start time decided.
#[derive(Clone, Copy, Debug, PartialEq, Eq, Structural)]
pub struct StartResolution {
    /// The workday start for today.
    pub start_time: LocalDateTime,
    /// Whether the start predates a reboot later on the same day.
    pub is_restored: bool,
    /// The session to write to storage, when the stored one was missing or stale.
    pub session_to_save: Option<WorkSession>,
}

/// A stored session counts for today when its start falls on today's date.
pub open spec fn is_current(stored: Option<WorkSession>, now: LocalDateTime) -> bool {
    stored matches Some(s) && s.start_time.day == now.day
}

/// The start counts as restored when it lies on the boot's date and strictly
/// before the boot instant.
pub open spec fn is_restored_spec(start: LocalDateTime, boot: LocalDateTime) -> bool {
    start.day == boot.day && start.instant_nanos() < boot.instant_nanos()
}

/// The resolution for a stored session, the current time and the boot time:
/// a session dated today is kept as it is; otherwise the boot time becomes the
/// start and is to be saved.
pub open spec fn resolve_spec(
    stored: Option<WorkSession>,
    now: LocalDateTime,
    boot: LocalDateTime,
) -> StartResolution {
    if is_current(stored, now) {
        let start = stored.unwrap().start_time;
        StartResolution {
            start_time: start,
            is_restored: is_restored_spec(start, boot),
            session_to_save: None,
        }
    } else {
        StartResolution {
            start_time: boot,
            is_restored: is_restored_spec(boot, boot),
            session_to_save: Some(WorkSession { start_time: boot }),
        }
    }
}

/// What storage holds after a resolution: the saved session if there was one,
/// else what it held before.
pub open spec fn stored_after(stored: Option<WorkSession>, res: StartResolution) -> Option<
    WorkSession,
> {
    if res.session_to_save.is_some() {
        res.session_to_save
    } else {
        stored
    }
}

/// Whether the start time counts as restored: same date as the boot and an
/// earlier instant.
pub fn classify_restored(start: &LocalDateTime, boot: &LocalDateTime) -> (r: bool)
    requires
        start.wf(),
        boot.wf(),
    ensures
        r == is_restored_spec(*start, *boot),
{
    start.same_date(boot) && start.is_before(boot)
}

/// Decides today's workday start from the stored session (`None` when it was
/// missing or unreadable), the current time and the boot time.
pub fn resolve_start_time(
    stored: Option<WorkSession>,
    now: LocalDateTime,
    boot: LocalDateTime,
) -> (r: StartResolution)
    requires
        stored matches Some(s) ==> s.start_time.wf(),
        now.wf(),
        boot.wf(),
    ensures
        r == resolve_spec(stored, now, boot),
        r.start_time.wf(),
{
    let start_time: LocalDateTime;
    let session_to_save: Option<WorkSession>;
    match stored {
        Some(session) if session.start_time.same_date(&now) => {
            start_time = session.start_time;
            session_to_save = None;
        },
        _ => {
            start_time = boot;
            session_to_save = Some(WorkSession { start_time: boot });
        },
    }
    let is_restored = classify_restored(&start_time, &boot);
    StartResolution { start_time, is_restored, session_to_save }
}

/// Resolving again, with storage as the first resolution left it and the same
/// current and boot times, gives the same start and the same classification,
/// and writes nothing new unless the first did.
pub proof fn lemma_resolve_idempotent(
    stored: Option<WorkSession>,
    now: LocalDateTime,
    boot: LocalDateTime,
)
    ensures
        ({
            let first = resolve_spec(stored, now, boot);
            let second = resolve_spec(stored_after(stored, first), now, boot);
            &&& second.start_time == first.start_time
            &&& second.is_restored == first.is_restored
            &&& first.session_to_save.is_none() ==> second.session_to_save.is_none()
            &&& stored_after(stored_after(stored, first), second) == stored_after(stored, first)
        }),
{
}

/// A session from an earlier day is never used: the boot time is returned and
/// a session holding it is saved.
pub proof fn lemma_stale_session_replaced(
    stored: WorkSession,
    now: LocalDateTime,
    boot: LocalDateTime,
)
    requires
        stored.start_time.day != now.day,
    ensures
        resolve_spec(Some(stored), now, boot).start_time == boot,
        resolve_spec(Some(stored), now, boot).session_to_save == Some(WorkSession { start_time: boot }),
{
}

/// A session dated today is returned unchanged, whatever the boot time.
pub proof fn lemma_current_session_kept(
    stored: WorkSession,
    now: LocalDateTime,
    boot: LocalDateTime,
)
    requires
        stored.start_time.day == now.day,
    ensures
        resolve_spec(Some(stored), now, boot).start_time == stored.start_time,
        resolve_spec(Some(stored), now, boot).session_to_save.is_none(),
{
}

/// A start taken from the current boot is never classified as restored.
pub proof fn lemma_fresh_start_not_restored(
    stored: Option<WorkSession>,
    now: LocalDateTime,
    boot: LocalDateTime,
)
    requires
        !is_current(stored, now) || stored.unwrap().start_time == boot,
    ensures
        !resolve_spec(stored, now, boot).is_restored,
{
}

} // verus!
