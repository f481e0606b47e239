//! The link monitor.

use crate::wifi::{
    ConnectionStatus, MonitorError, MonitorTaskResult, WifiConnectionError, WifiFault,
    MAX_CONSECUTIVE_FAILURES,
};
use vstd::prelude::*;

verus! {

/// Reads what the radio said about the link.
pub fn monitor_connection(status: Result<bool, WifiFault>) -> (seen: Result<
    ConnectionStatus,
    MonitorError,
>)
    ensures
        seen == match status {
            Ok(true) => Ok::<ConnectionStatus, MonitorError>(ConnectionStatus::Connected),
            Ok(false) => Ok(ConnectionStatus::Disconnected),
            Err(fault) => Err(MonitorError::Connection(WifiConnectionError::Wifi(fault))),
        },
{
    match status {
        Ok(true) => Ok(ConnectionStatus::Connected),
        Ok(false) => Ok(ConnectionStatus::Disconnected),
        Err(fault) => Err(MonitorError::Connection(WifiConnectionError::Wifi(fault))),
    }
}

/// The count of failed looks in a row after one more look, and what the
/// monitor tells the main cycle, if anything. Once it has told something the
/// monitor stops.
pub open spec fn monitor_next(
    consecutive_failures: u8,
    seen: Result<ConnectionStatus, MonitorError>,
) -> (u8, Option<MonitorTaskResult>) {
    match seen {
        Ok(ConnectionStatus::Connected) => (0, None),
        Ok(_) => if consecutive_failures + 1 >= MAX_CONSECUTIVE_FAILURES {
            (MAX_CONSECUTIVE_FAILURES, Some(MonitorTaskResult::ConnectionFailure))
        } else {
            ((consecutive_failures + 1) as u8, None)
        },
        Err(error) => (consecutive_failures, Some(MonitorTaskResult::InternalError(error))),
    }
}

/// Takes one look of the monitor into account.
///
/// A connected link clears the count of failures. A lost link adds to it,
/// and the `MAX_CONSECUTIVE_FAILURES`-th loss in a row is reported as a
/// connection failure. A look that could not be taken is reported at once.
pub fn wifi_monitor_task_with_channel(
    consecutive_failures: u8,
    seen: Result<ConnectionStatus, MonitorError>,
) -> (next: (u8, Option<MonitorTaskResult>))
    ensures
        next == monitor_next(consecutive_failures, seen),
        next.0 <= MAX_CONSECUTIVE_FAILURES || next.0 == consecutive_failures,
{
    match seen {
        Ok(ConnectionStatus::Connected) => (0, None),
        Ok(_) => {
            if consecutive_failures >= MAX_CONSECUTIVE_FAILURES - 1 {
                (MAX_CONSECUTIVE_FAILURES, Some(MonitorTaskResult::ConnectionFailure))
            } else {
                (consecutive_failures + 1, None)
            }
        },
        Err(error) => (consecutive_failures, Some(MonitorTaskResult::InternalError(error))),
    }
}

/// The count of failed looks in a row after a sequence of looks at the
/// link, each of which could be taken.
pub open spec fn monitor_run(consecutive_failures: u8, looks: Seq<ConnectionStatus>) -> u8
    decreases looks.len(),
{
    if looks.len() == 0 {
        consecutive_failures
    } else {
        monitor_next(monitor_run(consecutive_failures, looks.drop_last()), Ok(looks.last())).0
    }
}

/// Whether none of a sequence of looks made the monitor tell anything.
pub open spec fn monitor_kept_quiet(looks: Seq<ConnectionStatus>) -> bool
    decreases looks.len(),
{
    looks.len() == 0 || (monitor_kept_quiet(looks.drop_last()) && monitor_next(
        monitor_run(0, looks.drop_last()),
        Ok(looks.last()),
    ).1.is_none())
}

/// The count never passes the threshold, and while the monitor keeps quiet
/// it is the number of lost looks since the last connected one.
proof fn lemma_monitor_count(looks: Seq<ConnectionStatus>)
    ensures
        monitor_run(0, looks) <= MAX_CONSECUTIVE_FAILURES,
        monitor_kept_quiet(looks) && looks.len() > 0 ==> (monitor_run(0, looks) == 0
            <==> looks.last() == ConnectionStatus::Connected),
        monitor_kept_quiet(looks) ==> monitor_run(0, looks) < MAX_CONSECUTIVE_FAILURES,
    decreases looks.len(),
{
    if looks.len() > 0 {
        lemma_monitor_count(looks.drop_last());
    }
}

/// A monitor that starts with a clean count and has kept quiet so far
/// reports a connection failure exactly at the look that completes
/// `MAX_CONSECUTIVE_FAILURES` lost looks in a row; a single connected look
/// in between starts the count anew.
pub proof fn lemma_monitor_reports_after_consecutive_failures(
    looks: Seq<ConnectionStatus>,
    look: ConnectionStatus,
)
    requires
        monitor_kept_quiet(looks),
    ensures
        monitor_next(monitor_run(0, looks), Ok(look)).1 == Some(
            MonitorTaskResult::ConnectionFailure,
        ) <==> look != ConnectionStatus::Connected && looks.len() + 1 >= MAX_CONSECUTIVE_FAILURES
            && (forall|i: int|
            looks.len() + 1 - MAX_CONSECUTIVE_FAILURES <= i < looks.len() ==> looks[i]
                != ConnectionStatus::Connected),
{
    lemma_monitor_count(looks);
    if looks.len() > 0 {
        assert(looks.last() == looks[looks.len() - 1]);
    }
}

} // verus!
