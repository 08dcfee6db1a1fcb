//! What the supervisor can be asked to do, and what it can hear back. Decisions
//! are made on these; the work itself is done around the library.
use crate::lima::VmProvider;
use crate::policy::Resources;
use crate::storage_lifecycle::{Phase, RecoveryDecision};
use crate::store::{Configuration, ConfigurationView};
use crate::text;
use crate::vm::{VmInfo, VmInfoView};
use vstd::prelude::*;

verus! {

/// A state of the worker that the owner is told.
#[derive(Clone, Copy, Debug, PartialEq, Eq, Structural)]
pub enum Notice {
    ConnectFirst,
    StorageDisabled,
    Unreachable,
    Preparing,
    StoppedForUpdate,
    Incomplete,
    PrepareFirst,
    ResourcesUpdated,
    WaitingForUpdate,
    Connecting,
    DrainingForResize,
    Draining,
    WaitingForWork,
    Sharing,
    PausedFromFleet,
    WorkerStopped,
    DrainingForReplacement,
    Replacing,
    Replaced,
    PreparingUpdate,
    MaintenancePaused,
    StorageChangePaused,
    StorageMaintenance,
    StorageWaiting,
    StorageFiles,
    StorageApplying,
    StorageUpdated,
    MovingRuntime,
    StorageMissing,
    RecoveryPaused,
    StorageDeleted,
    StorageVerified,
    DownloadingImage,
    /// The phase of a storage maintenance.
    AtPhase(Phase),
}

/// The name of a maintenance phase.
pub open spec fn phase_name(p: Phase) -> Seq<char> {
    match p {
        Phase::Drain => "Drain"@,
        Phase::Backup => "Backup"@,
        Phase::BackupVerified => "BackupVerified"@,
        Phase::Reset => "Reset"@,
        Phase::Delete => "Delete"@,
        Phase::Create => "Create"@,
        Phase::Restore => "Restore"@,
        Phase::Verify => "Verify"@,
        Phase::Bootstrap => "Bootstrap"@,
        Phase::Capacity => "Capacity"@,
        Phase::Cleanup => "Cleanup"@,
    }
}

/// The name of a maintenance phase.
pub fn phase_text(p: Phase) -> (r: &'static str)
    ensures
        r@ == phase_name(p),
{
    match p {
        Phase::Drain => "Drain",
        Phase::Backup => "Backup",
        Phase::BackupVerified => "BackupVerified",
        Phase::Reset => "Reset",
        Phase::Delete => "Delete",
        Phase::Create => "Create",
        Phase::Restore => "Restore",
        Phase::Verify => "Verify",
        Phase::Bootstrap => "Bootstrap",
        Phase::Capacity => "Capacity",
        Phase::Cleanup => "Cleanup",
    }
}

/// The state that a notice reports.
pub open spec fn notice_state(n: Notice) -> Seq<char> {
    match n {
        Notice::ConnectFirst => "paused"@,
        Notice::StorageDisabled => "paused"@,
        Notice::Unreachable => "error"@,
        Notice::Preparing => "preparing"@,
        Notice::StoppedForUpdate => "paused"@,
        Notice::Incomplete => "paused"@,
        Notice::PrepareFirst => "paused"@,
        Notice::ResourcesUpdated => "paused"@,
        Notice::WaitingForUpdate => "draining"@,
        Notice::Connecting => "connecting"@,
        Notice::DrainingForResize => "draining"@,
        Notice::Draining => "draining"@,
        Notice::WaitingForWork => "draining"@,
        Notice::Sharing => "sharing"@,
        Notice::PausedFromFleet => "paused"@,
        Notice::WorkerStopped => "paused"@,
        Notice::DrainingForReplacement => "draining"@,
        Notice::Replacing => "replacing"@,
        Notice::Replaced => "paused"@,
        Notice::PreparingUpdate => "draining"@,
        Notice::MaintenancePaused => "paused"@,
        Notice::StorageChangePaused => "paused"@,
        Notice::StorageMaintenance => "preparing"@,
        Notice::StorageWaiting => "draining"@,
        Notice::StorageFiles => "preparing"@,
        Notice::StorageApplying => "preparing"@,
        Notice::StorageUpdated => "paused"@,
        Notice::MovingRuntime => "preparing"@,
        Notice::StorageMissing => "error"@,
        Notice::RecoveryPaused => "paused"@,
        Notice::StorageDeleted => "paused"@,
        Notice::StorageVerified => "paused"@,
        Notice::DownloadingImage => "preparing"@,
        Notice::AtPhase(_) => "preparing"@,
    }
}

/// The reason that a notice gives.
pub open spec fn notice_reason(n: Notice) -> Seq<char> {
    match n {
        Notice::ConnectFirst => "Connect this computer to a fleet to prepare its worker"@,
        Notice::StorageDisabled => "Worker storage is disabled; host enrollment remains"@,
        Notice::Unreachable => "The worker is powered on but the VM runtime cannot reach it. Use Stop now, then Prepare worker to retry. If this repeats, check the host's VM networking."@,
        Notice::Preparing => "Preparing the Linux worker within your resource budget"@,
        Notice::StoppedForUpdate => "Worker stopped for an application update"@,
        Notice::Incomplete => "Incomplete worker stopped. Prepare it again to retry"@,
        Notice::PrepareFirst => "Connected to your fleet. Prepare the Linux worker to continue"@,
        Notice::ResourcesUpdated => "Worker resources updated; your sharing rules still apply"@,
        Notice::WaitingForUpdate => "Waiting for running jobs before updating NodeHarbor"@,
        Notice::Connecting => "Starting the Linux worker and reconnecting to the private network"@,
        Notice::DrainingForResize => "Waiting for running work before applying your new resource limits"@,
        Notice::Draining => "Pausing new assignments and waiting for running work"@,
        Notice::WaitingForWork => "Waiting for running work to finish"@,
        Notice::Sharing => "Your worker is available for eligible workloads"@,
        Notice::PausedFromFleet => "Paused from the fleet dashboard"@,
        Notice::WorkerStopped => "Worker stopped"@,
        Notice::DrainingForReplacement => "Draining running work before replacing the worker disk"@,
        Notice::Replacing => "Removing the previous worker's access and disk"@,
        Notice::Replaced => "Previous worker removed. Prepare the replacement when you are ready"@,
        Notice::PreparingUpdate => "Preparing the worker for an application update"@,
        Notice::MaintenancePaused => "Storage maintenance paused by owner"@,
        Notice::StorageChangePaused => "Storage change paused. Start sharing or prepare the worker to continue."@,
        Notice::StorageMaintenance => "Storage maintenance; new assignments are disabled"@,
        Notice::StorageWaiting => "Waiting for running work before changing storage"@,
        Notice::StorageFiles => "Preparing and verifying the selected storage files"@,
        Notice::StorageApplying => "Applying and checking the combined worker storage"@,
        Notice::StorageUpdated => "Storage updated and verified; your sharing rules still apply"@,
        Notice::MovingRuntime => "Moving the VM onto the selected drive; the original remains intact until verification"@,
        Notice::StorageMissing => "Original worker storage is unavailable; assignments are stopped"@,
        Notice::RecoveryPaused => "Storage recovery paused by owner"@,
        Notice::StorageDeleted => "Worker storage deleted and disabled; host enrollment remains"@,
        Notice::StorageVerified => "Storage verified; fresh health qualification is required before new assignments"@,
        Notice::DownloadingImage => "Downloading and verifying the VM image on the selected drive"@,
        Notice::AtPhase(p) => "Storage maintenance: "@ + phase_name(p),
    }
}

impl Notice {
    pub fn state(self) -> (r: &'static str)
        ensures
            r@ == notice_state(self),
    {
        match self {
            Notice::ConnectFirst => "paused",
            Notice::StorageDisabled => "paused",
            Notice::Unreachable => "error",
            Notice::Preparing => "preparing",
            Notice::StoppedForUpdate => "paused",
            Notice::Incomplete => "paused",
            Notice::PrepareFirst => "paused",
            Notice::ResourcesUpdated => "paused",
            Notice::WaitingForUpdate => "draining",
            Notice::Connecting => "connecting",
            Notice::DrainingForResize => "draining",
            Notice::Draining => "draining",
            Notice::WaitingForWork => "draining",
            Notice::Sharing => "sharing",
            Notice::PausedFromFleet => "paused",
            Notice::WorkerStopped => "paused",
            Notice::DrainingForReplacement => "draining",
            Notice::Replacing => "replacing",
            Notice::Replaced => "paused",
            Notice::PreparingUpdate => "draining",
            Notice::MaintenancePaused => "paused",
            Notice::StorageChangePaused => "paused",
            Notice::StorageMaintenance => "preparing",
            Notice::StorageWaiting => "draining",
            Notice::StorageFiles => "preparing",
            Notice::StorageApplying => "preparing",
            Notice::StorageUpdated => "paused",
            Notice::MovingRuntime => "preparing",
            Notice::StorageMissing => "error",
            Notice::RecoveryPaused => "paused",
            Notice::StorageDeleted => "paused",
            Notice::StorageVerified => "paused",
            Notice::DownloadingImage => "preparing",
            Notice::AtPhase(_) => "preparing",
        }
    }

    pub fn reason(self) -> (r: String)
        ensures
            r@ == notice_reason(self),
    {
        match self {
            Notice::ConnectFirst => "Connect this computer to a fleet to prepare its worker".to_owned(),
            Notice::StorageDisabled => "Worker storage is disabled; host enrollment remains".to_owned(),
            Notice::Unreachable => "The worker is powered on but the VM runtime cannot reach it. Use Stop now, then Prepare worker to retry. If this repeats, check the host's VM networking.".to_owned(),
            Notice::Preparing => "Preparing the Linux worker within your resource budget".to_owned(),
            Notice::StoppedForUpdate => "Worker stopped for an application update".to_owned(),
            Notice::Incomplete => "Incomplete worker stopped. Prepare it again to retry".to_owned(),
            Notice::PrepareFirst => "Connected to your fleet. Prepare the Linux worker to continue".to_owned(),
            Notice::ResourcesUpdated => "Worker resources updated; your sharing rules still apply".to_owned(),
            Notice::WaitingForUpdate => "Waiting for running jobs before updating NodeHarbor".to_owned(),
            Notice::Connecting => "Starting the Linux worker and reconnecting to the private network".to_owned(),
            Notice::DrainingForResize => "Waiting for running work before applying your new resource limits".to_owned(),
            Notice::Draining => "Pausing new assignments and waiting for running work".to_owned(),
            Notice::WaitingForWork => "Waiting for running work to finish".to_owned(),
            Notice::Sharing => "Your worker is available for eligible workloads".to_owned(),
            Notice::PausedFromFleet => "Paused from the fleet dashboard".to_owned(),
            Notice::WorkerStopped => "Worker stopped".to_owned(),
            Notice::DrainingForReplacement => "Draining running work before replacing the worker disk".to_owned(),
            Notice::Replacing => "Removing the previous worker's access and disk".to_owned(),
            Notice::Replaced => "Previous worker removed. Prepare the replacement when you are ready".to_owned(),
            Notice::PreparingUpdate => "Preparing the worker for an application update".to_owned(),
            Notice::MaintenancePaused => "Storage maintenance paused by owner".to_owned(),
            Notice::StorageChangePaused => "Storage change paused. Start sharing or prepare the worker to continue.".to_owned(),
            Notice::StorageMaintenance => "Storage maintenance; new assignments are disabled".to_owned(),
            Notice::StorageWaiting => "Waiting for running work before changing storage".to_owned(),
            Notice::StorageFiles => "Preparing and verifying the selected storage files".to_owned(),
            Notice::StorageApplying => "Applying and checking the combined worker storage".to_owned(),
            Notice::StorageUpdated => "Storage updated and verified; your sharing rules still apply".to_owned(),
            Notice::MovingRuntime => "Moving the VM onto the selected drive; the original remains intact until verification".to_owned(),
            Notice::StorageMissing => "Original worker storage is unavailable; assignments are stopped".to_owned(),
            Notice::RecoveryPaused => "Storage recovery paused by owner".to_owned(),
            Notice::StorageDeleted => "Worker storage deleted and disabled; host enrollment remains".to_owned(),
            Notice::StorageVerified => "Storage verified; fresh health qualification is required before new assignments".to_owned(),
            Notice::DownloadingImage => "Downloading and verifying the VM image on the selected drive".to_owned(),
            Notice::AtPhase(p) => text::join2("Storage maintenance: ", phase_text(p)),
        }
    }
}

/// A refusal with a fixed message.
#[derive(Clone, Copy, Debug, PartialEq, Eq, Structural)]
pub enum Refusal {
    ReconnectBeforeUpdate,
    UnverifiedAllocation,
    UninspectedUpdate,
    NoReplacement,
    NoReceipt,
    NoStorageChange,
    InvalidOperation,
    WorkerUnavailable,
    UninspectedChange,
    FilesNeedStop,
    CompletionNeedsStop,
    NoMaintenance,
    UninspectedMaintenance,
    ResetNeedsStop,
    DeleteNeedsStop,
    CleanupNeedsStop,
    NoBackupLocation,
    NoVerifiedBackup,
    RelocationNeedsStop,
    DestinationNeedsStop,
    RelocationUnfinished,
    OriginalNeedsStop,
    RetiredIsActive,
    RetiredVolumeMissing,
    OriginalVolumeMissing,
}

/// The message of a refusal.
pub open spec fn refusal_text(n: Refusal) -> Seq<char> {
    match n {
        Refusal::ReconnectBeforeUpdate => "Reconnect this worker to its fleet before updating NodeHarbor"@,
        Refusal::UnverifiedAllocation => "Worker allocation is unverified. Inspect the stopped worker locally or replace it before sharing"@,
        Refusal::UninspectedUpdate => "Cannot inspect the worker before updating"@,
        Refusal::NoReplacement => "No worker replacement is pending"@,
        Refusal::NoReceipt => "Storage maintenance requires the existing worker ownership receipt"@,
        Refusal::NoStorageChange => "No storage change is pending"@,
        Refusal::InvalidOperation => "Invalid saved storage operation"@,
        Refusal::WorkerUnavailable => "The existing worker is unavailable; its storage has been preserved"@,
        Refusal::UninspectedChange => "Cannot inspect the worker before changing storage"@,
        Refusal::FilesNeedStop => "Stop the worker before preparing storage files"@,
        Refusal::CompletionNeedsStop => "Stop the worker before completing the storage change"@,
        Refusal::NoMaintenance => "No storage maintenance"@,
        Refusal::UninspectedMaintenance => "Cannot inspect running work before storage maintenance"@,
        Refusal::ResetNeedsStop => "Stop the worker before removing its access"@,
        Refusal::DeleteNeedsStop => "Stop the worker before deleting source images"@,
        Refusal::CleanupNeedsStop => "Stop the worker before finishing storage maintenance"@,
        Refusal::NoBackupLocation => "No reviewed temporary backup location"@,
        Refusal::NoVerifiedBackup => "No verified backup"@,
        Refusal::RelocationNeedsStop => "Stop the owned VM before relocating its storage"@,
        Refusal::DestinationNeedsStop => "Stop the destination VM before resuming relocation"@,
        Refusal::RelocationUnfinished => "Finish verifying and stop the selected VM before removing its original copy"@,
        Refusal::OriginalNeedsStop => "The original VM must remain stopped during cleanup"@,
        Refusal::RetiredIsActive => "Cannot remove the active VM runtime"@,
        Refusal::RetiredVolumeMissing => "Reconnect the retired VM volume to finish cleanup"@,
        Refusal::OriginalVolumeMissing => "Reconnect the original VM volume to finish relocation cleanup"@,
    }
}

/// The message of a refusal.
pub fn refusal_message(n: Refusal) -> (r: &'static str)
    ensures
        r@ == refusal_text(n),
{
    match n {
        Refusal::ReconnectBeforeUpdate => "Reconnect this worker to its fleet before updating NodeHarbor",
        Refusal::UnverifiedAllocation => "Worker allocation is unverified. Inspect the stopped worker locally or replace it before sharing",
        Refusal::UninspectedUpdate => "Cannot inspect the worker before updating",
        Refusal::NoReplacement => "No worker replacement is pending",
        Refusal::NoReceipt => "Storage maintenance requires the existing worker ownership receipt",
        Refusal::NoStorageChange => "No storage change is pending",
        Refusal::InvalidOperation => "Invalid saved storage operation",
        Refusal::WorkerUnavailable => "The existing worker is unavailable; its storage has been preserved",
        Refusal::UninspectedChange => "Cannot inspect the worker before changing storage",
        Refusal::FilesNeedStop => "Stop the worker before preparing storage files",
        Refusal::CompletionNeedsStop => "Stop the worker before completing the storage change",
        Refusal::NoMaintenance => "No storage maintenance",
        Refusal::UninspectedMaintenance => "Cannot inspect running work before storage maintenance",
        Refusal::ResetNeedsStop => "Stop the worker before removing its access",
        Refusal::DeleteNeedsStop => "Stop the worker before deleting source images",
        Refusal::CleanupNeedsStop => "Stop the worker before finishing storage maintenance",
        Refusal::NoBackupLocation => "No reviewed temporary backup location",
        Refusal::NoVerifiedBackup => "No verified backup",
        Refusal::RelocationNeedsStop => "Stop the owned VM before relocating its storage",
        Refusal::DestinationNeedsStop => "Stop the destination VM before resuming relocation",
        Refusal::RelocationUnfinished => "Finish verifying and stop the selected VM before removing its original copy",
        Refusal::OriginalNeedsStop => "The original VM must remain stopped during cleanup",
        Refusal::RetiredIsActive => "Cannot remove the active VM runtime",
        Refusal::RetiredVolumeMissing => "Reconnect the retired VM volume to finish cleanup",
        Refusal::OriginalVolumeMissing => "Reconnect the original VM volume to finish relocation cleanup",
    }
}

/// A routine that takes over from a tick.
#[derive(Clone, Copy, Debug, PartialEq, Eq, Structural)]
pub enum Routine {
    ImmediateStop,
    RemoteStorage,
    Maintenance,
    StorageOperation,
    Recreation,
}

/// How a routine ends.
#[derive(Clone, Copy, Debug, PartialEq, Eq, Structural)]
pub enum Outcome {
    Done,
    /// With the error of the last step.
    Failed,
    /// With the error that was kept.
    Held,
    Refused(Refusal),
    /// Another routine goes on.
    Go(Routine),
    /// With an answer.
    Answer(bool),
}

/// A request to the fleet controller.
#[derive(Clone, Copy, Debug, PartialEq, Eq, Structural)]
pub enum Route {
    Bootstrap,
    Maintenance,
    Drain,
    Resume,
    Reset,
}

/// The path of a request to the fleet controller.
pub open spec fn route_path(r: Route) -> Seq<char> {
    match r {
        Route::Bootstrap => "/device/bootstrap"@,
        Route::Maintenance => "/device/maintenance"@,
        Route::Drain => "/device/drain"@,
        Route::Resume => "/device/resume"@,
        Route::Reset => "/device/reset"@,
    }
}

impl Route {
    pub fn path(self) -> (r: &'static str)
        ensures
            r@ == route_path(self),
    {
        match self {
            Route::Bootstrap => "/device/bootstrap",
            Route::Maintenance => "/device/maintenance",
            Route::Drain => "/device/drain",
            Route::Resume => "/device/resume",
            Route::Reset => "/device/reset",
        }
    }
}

/// Something the worker VM is asked to do.
#[derive(Clone, Copy, Debug, PartialEq, Eq, Structural)]
pub enum VmTask {
    Create(Resources),
    Resize(Resources),
    /// Processors and memory only: the disks stand elsewhere.
    ResizeCompute(Resources),
    Start,
    Stop,
    StopNow,
    /// With the controller's last reply.
    Configure,
    RenewLease,
    Remove,
    /// Bring the guest to where its storage can be worked on.
    PrepareStorage,
    QuiesceStorage,
    ResetCredentials,
}

/// Why the worker is being started.
#[derive(Clone, Copy, Debug, PartialEq, Eq, Structural)]
pub enum Starting {
    Preparation,
    Resume,
}

/// A change of what the supervisor remembers.
#[derive(Clone, Copy, Debug, PartialEq, Eq, Structural)]
pub enum Memory {
    UpdateReady(bool),
    Starting(Option<Starting>),
    NoWorker,
    /// There is no worker any longer, and nothing that ran on it.
    WorkerRemoved,
    StoppingNow(bool),
    WorkerStopped,
    /// The worker runs no longer, and nothing runs on it.
    WorkerEmptied,
    /// As `WorkerEmptied`, and an application update can go on.
    UpdateStopped,
    /// The workloads that were counted last, while the worker runs.
    Workloads,
    /// The workloads that were counted last.
    Counted,
    /// The system pods of the controller's last reply.
    SystemPods,
}

/// What the worker's next action is decided on.
#[derive(Clone, Copy, Debug, PartialEq, Eq, Structural)]
pub struct WorkerInput {
    pub permitted: bool,
    pub running: bool,
    pub draining_since: Option<u64>,
    pub now: u64,
    pub drain_seconds: u32,
    pub workloads: usize,
}

/// What is decided of the worker.
#[derive(Clone, Copy, Debug, PartialEq, Eq, Structural)]
pub enum WorkerAction {
    Start,
    Drain,
    Wait,
    Stop,
    Keep,
}

/// A change of the settings that a tick makes.
#[derive(Clone, Copy, Debug, PartialEq, Eq, Structural)]
pub enum Save {
    /// Give up what an interrupted remote change left.
    Recover,
    ClearPreparation,
    RecordWorker(Resources),
    FinishPreparation,
    RecordAllocation(Resources),
    BeginDrain,
    ClearDrain,
    ClearDrainIfPermitted,
    RequestStop,
    FinishStop(bool),
    AccessRemoved,
    WorkerReplaced(VmProvider),
}

/// Something the storage pool in the guest is asked to do.
#[derive(Clone, Copy, Debug, PartialEq, Eq, Structural)]
pub enum PoolTask {
    Apply,
    Activate,
    Check,
    Migrate,
    Retire,
    Restored,
}

/// What is streamed between the worker and its backup.
#[derive(Clone, Copy, Debug, PartialEq, Eq, Structural)]
pub enum Archive {
    Backup,
    Verify,
    Restore,
}

/// The steps of a storage operation.
#[derive(Clone, Copy, Debug, PartialEq, Eq, Structural)]
pub enum Stage {
    Pending,
    Disks,
    Guest,
    Verified,
}

/// How a disk gets from where it was to where it is wanted.
#[derive(Clone, Copy, Debug, PartialEq, Eq, Structural)]
pub enum DiskPlan {
    New,
    /// In place: it grows.
    Kept,
    /// To another directory; whether it grows there.
    Moved(bool),
}

/// A change of the storage records that a routine makes.
#[derive(Clone, Copy, Debug, PartialEq, Eq, Structural)]
pub enum StorageSave {
    /// The maintenance stopped with the error that was kept.
    MaintenanceFailed,
    MaintenancePhase(Phase),
    /// The backup file that was made.
    BackupMade,
    /// What was verified of the backup.
    BackupVerified,
    /// The previous disks await removal.
    PreviousRetired,
    /// The previous disk of that index is gone.
    DiskRemoved(usize),
    MaintenanceFinished,
    OperationStage(Stage),
    OperationFinished,
    StorageMissing,
    /// The returned storage is not valid: the error that was kept.
    ReturnFailed,
    StorageReturned,
    RecoveryBegun,
    /// The VM already stands where the layout wants it.
    LayoutKept,
    RelocationBegun,
    RelocationSwitched,
    RelocationFinished,
    /// The retired runtime directory is gone.
    RuntimeForgotten,
}

/// What a routine asks for next.
#[derive(Clone, Copy, Debug, PartialEq, Eq, Structural)]
pub enum Step {
    /// Read the settings.
    Load,
    Save(Save),
    /// Whether the worker's ownership receipt is here.
    Receipt,
    /// The state of the worker, to be remembered.
    Inspect,
    /// The state of the worker.
    Look,
    Run(VmTask),
    Ask(Route),
    Heartbeat,
    Tell(Notice),
    /// Report the error that was kept.
    TellHeld,
    /// Report that the worker rests, with the rules' reason.
    TellResting,
    Note(Memory),
    /// Keep the last error.
    Hold,
    /// Begin the activity step of asking for access.
    AnnounceAccess,
    ResolveInitialStorage,
    CleanBackups,
    MissingStorage,
    ValidateStorage,
    CreateStorageWorker,
    FinishInitialStorage,
    CleanCopies,
    ApplyConfiguration,
    /// Whether the sharing rules fit this computer.
    ValidatePolicy,
    /// Whether the owner's rules call for a drain.
    LocalDrain,
    /// Whether the owner's rules permit sharing.
    Judge,
    /// The workloads that the controller counts in its last reply.
    Bound,
    /// The workloads on the worker, without the last reply's system pods.
    CountReplied,
    /// The workloads on the worker, without the remembered system pods.
    Count,
    /// All workloads on the worker.
    CountAll,
    /// Whether the worker was idle before, to be replaced by this.
    SwapIdle(bool),
    Decide(WorkerInput),
    /// Keep a refusal as the error.
    HoldRefusal(Refusal),
    /// Report the error at which the maintenance stands.
    TellMaintenanceError,
    /// Report that too little storage remains.
    TellInsufficient,
    SaveStorage(StorageSave),
    /// Whether the new disks hold the worker's data.
    CheckCapacity,
    MakeBackupFile,
    /// Whether the backup file is the one that was made.
    OpenBackup,
    TruncateBackup,
    Stream(Archive),
    ChecksumBackup,
    /// Whether the backup is still as it was verified.
    VerifyBackup,
    Pool(PoolTask),
    /// Whether the pool's last answer fits the settings.
    CheckPool,
    /// Whether a replacement fits on the runtime's volume.
    ReplacementSpace,
    DetachDisks,
    /// Whether the previous disk of that index is there.
    DiskPresent(usize),
    RemoveDisk(usize),
    CreateDisk(usize),
    ValidateDisk(usize),
    InspectDisk(usize),
    /// How the disk of that index gets to its place.
    RelateDisk(usize),
    GrowDisk(usize),
    /// Whether the moved disk of that index is already at its new place.
    InspectMoved(usize),
    StageMove(usize),
    CommitMove(usize),
    GrowMoved(usize),
    ConfigureStorage,
    CreateWithStorage,
    ReplacementCapacity,
    /// Whether the host can run the worker.
    Preflight,
    /// Whether the settings with the new disks are valid.
    ValidateChanged,
    ValidateTargets,
    RelocateRuntime,
    VerifyPlacement,
    CleanRelocation,
    /// The configured disks that are not there.
    FindMissing,
    DecideRecovery,
    PlanRebuild,
    /// Whether the runtime directory at the layout is this computer's.
    ValidateHome,
    /// The volume of the VM that is moved.
    SourceVolume,
    PrepareHome,
    /// The state of the VM at its new place.
    InspectDestination,
    CopyRuntime,
    /// Whether a remote request may still act.
    CheckAuthority,
    SourceExists,
    SourceVolumeMatches,
    VerifySourceReceipt,
    SourceWorkerExists,
    VerifySource,
    /// The state of the VM at its old place.
    InspectSource,
    StopSource,
    DeleteSource,
    RemoveSourceHome,
    Finish(Outcome),
}

/// The state of the worker, as far as decisions need it.
#[derive(Clone, Copy, Debug, PartialEq, Eq, Structural)]
pub struct Sight {
    pub installed: bool,
    pub running: bool,
    pub reachable: bool,
    pub stopped: bool,
}

pub open spec fn sight_of(v: VmInfoView) -> Sight {
    Sight {
        installed: v.installed,
        running: v.running,
        reachable: v.reachable,
        stopped: v.stopped,
    }
}

/// The state of the worker, as far as decisions need it.
pub fn sight(info: &VmInfo) -> (r: Sight)
    ensures
        r == sight_of(info@),
{
    Sight {
        installed: info.installed,
        running: info.running,
        reachable: info.reachable,
        stopped: info.stopped,
    }
}

/// The state of a worker that is not there.
pub open spec fn nothing() -> Sight {
    Sight { installed: false, running: false, reachable: false, stopped: false }
}

pub fn no_sight() -> (r: Sight)
    ensures
        r == nothing(),
{
    Sight { installed: false, running: false, reachable: false, stopped: false }
}

/// The settings, as far as a tick decides on them, at a time.
#[derive(Clone, Copy, Debug, PartialEq, Eq, Structural)]
pub struct Facts {
    pub enrolled: bool,
    pub update_pending: bool,
    pub pending: bool,
    /// The pending request is about storage.
    pub storage_request: bool,
    pub stop_requested: bool,
    pub prepare_requested: bool,
    pub vm_created: bool,
    pub vm_configured: bool,
    pub maintenance: bool,
    pub disabled: bool,
    pub operation: bool,
    pub recreation: bool,
    pub access_removed: bool,
    /// The runtime of the worker that follows a replacement.
    pub next_provider: VmProvider,
    pub repair: bool,
    /// The worker's disks stand at selected locations.
    pub placed: bool,
    pub resources: Resources,
    pub allocated: Option<Resources>,
    pub draining_since: Option<u64>,
    pub drain_seconds: u32,
    pub now: u64,
}

/// Whether a drain that began at that time has used up its grace period.
pub open spec fn overdue(since: Option<u64>, now: u64, seconds: u32) -> bool {
    match since {
        Some(start) => now >= start + seconds || seconds == 0,
        None => false,
    }
}

/// Whether a drain that began at that time has used up its grace period.
pub fn is_overdue(since: Option<u64>, now: u64, seconds: u32) -> (r: bool)
    ensures
        r == overdue(since, now, seconds),
{
    match since {
        Some(start) => now.saturating_sub(start) >= seconds as u64,
        None => false,
    }
}

pub open spec fn facts_of(c: ConfigurationView, now: u64) -> Facts {
    Facts {
        enrolled: c.device_token is Some,
        update_pending: c.application_update_pending,
        pending: c.remote.pending is Some,
        storage_request: match c.remote.pending {
            Some(command) => command.edit.operation is Some,
            None => false,
        },
        stop_requested: c.stop_requested,
        prepare_requested: c.prepare_requested,
        vm_created: c.vm_created,
        vm_configured: c.vm_configured,
        maintenance: c.storage_lifecycle.maintenance is Some,
        disabled: c.storage_lifecycle.disabled,
        operation: c.storage_operation is Some,
        recreation: c.recreation is Some,
        access_removed: match c.recreation {
            Some(request) => request.access_removed,
            None => false,
        },
        next_provider: match c.recreation {
            Some(request) => match request.target_provider {
                Some(provider) => provider,
                None => c.vm_provider,
            },
            None => c.vm_provider,
        },
        repair: c.remote.repair_required,
        placed: c.storage_locations.len() > 0,
        resources: c.policy.resources,
        allocated: c.allocated_resources,
        draining_since: c.draining_since,
        drain_seconds: c.policy.drain_seconds,
        now,
    }
}

/// The settings, as far as a tick decides on them, at a time.
pub fn facts(config: &Configuration, now: u64) -> (r: Facts)
    ensures
        r == facts_of(config@, now),
{
    Facts {
        enrolled: config.device_token.is_some(),
        update_pending: config.application_update_pending,
        pending: config.remote.pending.is_some(),
        storage_request: match &config.remote.pending {
            Some(command) => command.edit.operation.is_some(),
            None => false,
        },
        stop_requested: config.stop_requested,
        prepare_requested: config.prepare_requested,
        vm_created: config.vm_created,
        vm_configured: config.vm_configured,
        maintenance: config.storage_lifecycle.maintenance.is_some(),
        disabled: config.storage_lifecycle.disabled,
        operation: config.storage_operation.is_some(),
        recreation: config.recreation.is_some(),
        access_removed: match &config.recreation {
            Some(request) => request.access_removed,
            None => false,
        },
        next_provider: match &config.recreation {
            Some(request) => match request.target_provider {
                Some(provider) => provider,
                None => config.vm_provider,
            },
            None => config.vm_provider,
        },
        repair: config.remote.repair_required,
        placed: config.storage_locations.len() > 0,
        resources: config.policy.resources,
        allocated: config.allocated_resources,
        draining_since: config.draining_since,
        drain_seconds: config.policy.drain_seconds,
        now,
    }
}

/// Whether the worker does not have the resources that the owner grants.
pub open spec fn resize_pending(f: Facts) -> bool {
    f.vm_configured && f.allocated != Some(f.resources)
}

/// Whether the worker does not have the resources that the owner grants.
pub fn needs_resize(f: Facts) -> (r: bool)
    ensures
        r == resize_pending(f),
{
    f.vm_configured && f.allocated != Some(f.resources)
}

/// Whether the drain under these settings has used up its grace period.
pub open spec fn expired(f: Facts) -> bool {
    overdue(f.draining_since, f.now, f.drain_seconds)
}

/// Whether the drain under these settings has used up its grace period.
pub fn has_expired(f: Facts) -> (r: bool)
    ensures
        r == expired(f),
{
    is_overdue(f.draining_since, f.now, f.drain_seconds)
}

/// What a routine hears back.
#[derive(Clone, Copy, Debug, PartialEq, Eq, Structural)]
pub enum Event {
    Begin,
    Done,
    Failed,
    Answer(bool),
    Settings(Facts),
    Worker(Sight),
    /// How many workloads there are.
    Workloads(usize),
    /// What the controller counts.
    Bound(u64),
    /// What the owner's rules say, and whether the fleet paused this computer.
    Judged(bool, bool),
    Action(WorkerAction),
    Disk(DiskPlan),
    /// How many of the configured disks are not there.
    Found(usize),
    Recovery(RecoveryDecision),
}

} // verus!
