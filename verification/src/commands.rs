//! The decisions of the command line.
use crate::failure::{fail, first_of, refusal, unless, Failure};
use crate::host_paths::{self, host_absolute};
use crate::store::{Configuration, ConfigurationView};
use crate::text;
use vstd::prelude::*;

verus! {

/// Whether a time to wait is one that can be asked for.
pub open spec fn is_patience(timeout: u64) -> bool {
    1 <= timeout <= 3600
}

/// Whether the exit of a previous application can be waited for.
pub fn check_exit_wait(platform: &str, executable: &str, timeout: u64) -> (r: Result<(), Failure>)
    ensures
        refusal(r) == first_of(
            unless(
                is_patience(timeout),
                "Application exit timeout must be between 1 and 3600 seconds"@,
            ),
            unless(
                host_absolute(platform@, executable@),
                "Use the previous application's absolute executable path"@,
            ),
        ),
{
    if timeout < 1 || timeout > 3600 {
        return Err(fail("Application exit timeout must be between 1 and 3600 seconds"));
    }
    if !host_paths::absolute(platform, executable) {
        return Err(fail("Use the previous application's absolute executable path"));
    }
    Ok(())
}

/// Whether an update can wait for the worker to drain.
pub fn check_update_wait(timeout: u64) -> (r: Result<(), Failure>)
    ensures
        refusal(r) == unless(
            is_patience(timeout),
            "Update drain timeout must be between 1 and 3600 seconds"@,
        ),
{
    if timeout < 1 || timeout > 3600 {
        Err(fail("Update drain timeout must be between 1 and 3600 seconds"))
    } else {
        Ok(())
    }
}

/// A process as it is seen while an application exits.
#[derive(Debug)]
pub struct ProcessSight {
    pub id: u64,
    /// A task of a process, not a process of its own.
    pub task: bool,
    pub executable: Option<String>,
}

/// Whether a process is the application.
pub open spec fn is_application(p: ProcessSight, own: u64, executable: Seq<char>) -> bool {
    p.id != own && !p.task && p.executable is Some && p.executable->0@ == executable
}

/// Whether the application still runs, in a process other than this one.
pub fn still_running(processes: &[ProcessSight], own: u64, executable: &str) -> (r: bool)
    ensures
        r == exists|i: int|
            0 <= i < processes@.len() && is_application(
                #[trigger] processes@[i],
                own,
                executable@,
            ),
{
    for i in 0..processes.len()
        invariant
            forall|j: int|
                0 <= j < i ==> !is_application(#[trigger] processes@[j], own, executable@),
    {
        let p = &processes[i];
        let same = match &p.executable {
            Some(path) => text::same(path.as_str(), executable),
            None => false,
        };
        if p.id != own && !p.task && same {
            assert(is_application(processes@[i as int], own, executable@));
            return true;
        }
    }
    false
}

/// Whether there can be a worker to wait for.
pub open spec fn may_have_worker(c: ConfigurationView, receipt: bool) -> bool {
    c.vm_created || c.prepare_requested || receipt
}

/// Whether there can be a worker to wait for.
pub fn waits_for_worker(config: &Configuration, receipt: bool) -> (r: bool)
    ensures
        r == may_have_worker(config@, receipt),
{
    config.vm_created || config.prepare_requested || receipt
}

/// Whether waiting for the worker ends, or why it fails: it is done once the
/// worker does not run, and fails when the time is over.
pub fn worker_wait(running: bool, overdue: bool) -> (r: Result<bool, Failure>)
    ensures
        refusal(r) == unless(
            !running || !overdue,
            "The worker did not finish draining in time; the existing application must be preserved"@,
        ),
        r matches Ok(done) ==> done == !running,
{
    if !running {
        return Ok(true);
    }
    if overdue {
        return Err(
            fail(
                "The worker did not finish draining in time; the existing application must be preserved",
            ),
        );
    }
    Ok(false)
}

/// Whether waiting for an application ends, or why it fails.
pub fn application_wait(running: bool, overdue: bool) -> (r: Result<bool, Failure>)
    ensures
        refusal(r) == unless(
            !running || !overdue,
            "The previous application is still running; its installation must be preserved"@,
        ),
        r matches Ok(done) ==> done == !running,
{
    if !running {
        return Ok(true);
    }
    if overdue {
        return Err(
            fail("The previous application is still running; its installation must be preserved"),
        );
    }
    Ok(false)
}

/// Whether a worker may be replaced: the owner says that its disk goes.
pub fn check_replacement(confirmed: bool) -> (r: Result<(), Failure>)
    ensures
        refusal(r) == unless(
            confirmed,
            "Replacement permanently deletes the owned worker disk. Supply --confirm-delete-disk to request it"@,
        ),
{
    if confirmed {
        Ok(())
    } else {
        Err(
            fail(
                "Replacement permanently deletes the owned worker disk. Supply --confirm-delete-disk to request it",
            ),
        )
    }
}

} // verus!
