//! Local contribution supervision. VM names are owned by enrolled device IDs.
pub mod activity;
pub mod agent;
pub mod checksum;
pub mod commands;
pub mod failure;
pub mod guest;
pub mod host_laws;
pub mod host_paths;
pub mod identity;
pub mod json;
pub mod lima;
pub mod lima_storage;
pub mod lima_storage_runs;
pub mod observe;
pub mod paths;
pub mod policy;
pub mod process;
pub mod remote;
pub mod runtime_image;
pub mod runtime_platform;
pub mod runtime_runs;
pub mod runtime_storage;
pub mod storage;
pub mod storage_laws;
pub mod storage_layout;
pub mod storage_lifecycle;
pub mod storage_plan;
pub mod storage_plan_laws;
pub mod store;
pub mod text;
pub mod values;
pub mod vm;
pub mod vm_laws;
pub mod vm_operations;
pub mod vm_runs;

pub use guest::guest_files;
pub use identity::managed_vm_name;
pub use lima::{LimaRunner, VmProvider};
pub use store::{Configuration, Store};
pub use vm::{CommandOutput, MultipassRunner, Vm, VmInfo, WorkloadInventory};
use vstd::prelude::*;

verus! {

/// The stream of a child process that a line of output came from.
#[derive(Clone, Copy, Debug, PartialEq, Eq, Structural)]
pub enum OutputStream {
    Stdout,
    Stderr,
}

/// What closing the application window does.
#[derive(Clone, Copy, Debug, PartialEq, Eq, Structural)]
pub enum CloseBehavior {
    Hide,
    DrainThenExit,
    Exit,
}

/// A background agent keeps running behind a hidden window until the owner
/// quits; quitting drains an active worker first.
pub fn close_behavior(background: bool, active: bool, explicit_quit: bool) -> (r: CloseBehavior)
    ensures
        r == CloseBehavior::Hide <==> background && !explicit_quit,
        r == CloseBehavior::DrainThenExit <==> active && !(background && !explicit_quit),
        r == CloseBehavior::Exit <==> !active && !(background && !explicit_quit),
{
    if background && !explicit_quit {
        CloseBehavior::Hide
    } else if active {
        CloseBehavior::DrainThenExit
    } else {
        CloseBehavior::Exit
    }
}

} // verus!
