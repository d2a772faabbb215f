//! Run statuses and the display severity derived from them.
use vstd::prelude::*;

verus! {

/// States for commit statuses.
#[derive(Debug, Clone, Copy, PartialEq, Eq, Structural)]
pub enum StatusState {
    /// The check was created.
    Created,
    /// The check is waiting for some other resource.
    WaitingForResource,
    /// The check is currently being prepared.
    Preparing,
    /// The check is queued.
    Pending,
    /// The check is currently running.
    Running,
    /// The check succeeded.
    Success,
    /// The check failed.
    Failed,
    /// The check was canceled.
    Canceled,
    /// The check was skipped.
    Skipped,
    /// The check is waiting for manual action.
    Manual,
    /// The check is scheduled to run at some point in time.
    Scheduled,
}

/// Display styles of the output sink.
#[derive(Debug, Clone, Copy, PartialEq, Eq, Structural)]
pub enum Style {
    /// Plain text.
    Plain,
    /// A positive outcome.
    Good,
    /// Something that needs attention; also used for captions.
    Warning,
    /// A negative outcome.
    Error,
    /// A literal value (an id, a name).
    Literal,
    /// Secondary information.
    Hint,
}

/// The display severity of each status.
pub open spec fn severity(status: StatusState) -> Style {
    match status {
        StatusState::Success | StatusState::Running => Style::Good,
        StatusState::Canceled | StatusState::Failed => Style::Error,
        StatusState::WaitingForResource | StatusState::Skipped | StatusState::Pending => {
            Style::Warning
        },
        StatusState::Created
        | StatusState::Manual
        | StatusState::Preparing
        | StatusState::Scheduled => Style::Literal,
    }
}

/// Whether an entity in this status has retrievable log output.
pub open spec fn has_log_spec(status: StatusState) -> bool {
    status == StatusState::Canceled || status == StatusState::Failed || status
        == StatusState::Running || status == StatusState::Success
}

/// Maps a status to its display style.
pub fn status_style(status: StatusState) -> (r: Style)
    ensures
        r == severity(status),
{
    match status {
        StatusState::Success | StatusState::Running => Style::Good,
        StatusState::Canceled | StatusState::Failed => Style::Error,
        StatusState::WaitingForResource | StatusState::Skipped | StatusState::Pending => {
            Style::Warning
        },
        StatusState::Created
        | StatusState::Manual
        | StatusState::Preparing
        | StatusState::Scheduled => Style::Literal,
    }
}

/// Whether a pipeline or job in `status` has a log to show.
pub fn has_log(status: StatusState) -> (r: bool)
    ensures
        r == has_log_spec(status),
{
    status == StatusState::Canceled || status == StatusState::Failed || status
        == StatusState::Running || status == StatusState::Success
}

} // verus!
