//! What whole preparations and copies of a runtime directory leave behind, on a host
//! that is described by what their steps find and do there.
use crate::identity;
use crate::json::JsonView;
use crate::runtime_storage::{
    file_after, home_after, move_after, Copying, FileAt, FileCopy, HomeAt, HomeEvent, HomeOutcome,
    HomeStep, MoveAt, Preparing,
};
use vstd::prelude::*;

verus! {

/// A host on which a runtime directory is prepared.
pub struct HomeHost {
    /// Whether the selected folder exists, and stands on the selected volume.
    pub folder: bool,
    pub on_volume: bool,
    /// Whether the directory above the folder stands on the selected volume.
    pub above_on_volume: bool,
    /// Whether the runtime directory exists, and holds nothing.
    pub home: bool,
    pub empty: bool,
    /// The owner and the volume of the receipt in the runtime directory.
    pub receipt: Option<(Seq<char>, Seq<char>)>,
}

pub open spec fn done_if(b: bool) -> HomeEvent {
    if b {
        HomeEvent::Done
    } else {
        HomeEvent::Failed
    }
}

/// What a step of a preparation does to the host, and what it hears back. A receipt
/// is accepted from the owner on the volume for which it was written.
pub open spec fn home_answer(
    h: HomeHost,
    owner: Seq<char>,
    volume: Seq<char>,
    step: HomeStep,
) -> (HomeHost, HomeEvent) {
    match step {
        HomeStep::FolderExists => (h, HomeEvent::Answer(h.folder)),
        HomeStep::FolderVolume => (h, done_if(h.folder && h.on_volume)),
        HomeStep::ParentVolume => (h, done_if(h.above_on_volume)),
        HomeStep::MakeFolder => (
            HomeHost { folder: true, on_volume: h.above_on_volume, ..h },
            HomeEvent::Done,
        ),
        HomeStep::ReceiptExists => (h, HomeEvent::Answer(h.receipt is Some)),
        HomeStep::Validate => (
            h,
            done_if(
                h.home && h.on_volume && identity::is_identity(owner) && h.receipt == Some(
                    (owner, volume),
                ),
            ),
        ),
        HomeStep::MakeHome => (
            HomeHost { home: true, empty: h.empty || !h.home, ..h },
            HomeEvent::Done,
        ),
        HomeStep::HomeEmpty => (h, HomeEvent::Answer(h.empty)),
        HomeStep::HomeVolume => (h, done_if(h.on_volume)),
        HomeStep::WriteReceipt => if identity::is_identity(owner) {
            (HomeHost { empty: false, receipt: Some((owner, volume)), ..h }, HomeEvent::Done)
        } else {
            (h, HomeEvent::Failed)
        },
        HomeStep::SyncHome => (h, HomeEvent::Done),
        _ => (h, HomeEvent::Failed),
    }
}

/// A preparation from an answer on, for so many steps at most.
pub open spec fn preparation(
    p: Preparing,
    e: HomeEvent,
    h: HomeHost,
    owner: Seq<char>,
    volume: Seq<char>,
    steps: nat,
) -> (HomeHost, HomeOutcome)
    decreases steps,
{
    let (next, step) = home_after(p, e);
    match step {
        HomeStep::Finish(outcome) => (h, outcome),
        _ => if steps == 0 {
            (h, HomeOutcome::Failed)
        } else {
            let (changed, answer) = home_answer(h, owner, volume, step);
            preparation(next, answer, changed, owner, volume, (steps - 1) as nat)
        },
    }
}

/// The host after a preparation, and how that ended.
pub open spec fn prepared(h: HomeHost, owner: Seq<char>, volume: Seq<char>) -> (
    HomeHost,
    HomeOutcome,
) {
    preparation(
        Preparing { at: HomeAt::Start, anchored: false },
        HomeEvent::Begin,
        h,
        owner,
        volume,
        16,
    )
}

/// A folder on its volume is prepared, and prepared again without a change. For
/// another owner it is refused then, without a change.
pub proof fn homes_are_prepared_for_one_owner(
    h: HomeHost,
    owner: Seq<char>,
    other: Seq<char>,
    volume: Seq<char>,
)
    requires
        h.folder && h.on_volume,
        !h.home && h.receipt is None,
        identity::is_identity(owner),
        other != owner,
    ensures
        prepared(h, owner, volume).1 == HomeOutcome::Done,
        ({
            let once = prepared(h, owner, volume).0;
            &&& once.home
            &&& prepared(once, owner, volume) == (once, HomeOutcome::Done)
            &&& prepared(once, other, volume) == (once, HomeOutcome::Failed)
        }),
{
    reveal_with_fuel(preparation, 17);
}

/// Where the folder stands on another volume, or is missing below one, nothing is
/// made.
pub proof fn foreign_volumes_are_left_alone(h: HomeHost, owner: Seq<char>, volume: Seq<char>)
    requires
        if h.folder {
            !h.on_volume
        } else {
            !h.above_on_volume
        },
    ensures
        prepared(h, owner, volume) == (h, HomeOutcome::Failed),
{
    reveal_with_fuel(preparation, 17);
}

/// A host on which a file of the VM is copied.
pub struct FileHost {
    pub source: Seq<u8>,
    /// What comes into the new file when the source is copied there.
    pub written: Seq<u8>,
    /// The new file, before it has its name.
    pub temporary: Option<Seq<u8>>,
    /// The file under its name in the new place.
    pub copy: Option<Seq<u8>>,
    /// Whether the name is that of an image.
    pub image: bool,
    /// Whether all files stand on their volumes.
    pub on_volumes: bool,
    /// Whether the source stays as it is meanwhile.
    pub steady: bool,
    /// Whether the owner still wants this.
    pub allowed: bool,
}

/// What a step of the copy of a file does to the host, and what it hears back.
pub open spec fn file_answer(h: FileHost, step: HomeStep) -> (FileHost, HomeEvent) {
    match step {
        HomeStep::OpenSource | HomeStep::OpenCopy | HomeStep::SyncTemporary
        | HomeStep::SyncDestination => (h, HomeEvent::Done),
        HomeStep::SourceVolume | HomeStep::CopyVolume | HomeStep::DestinationVolume
        | HomeStep::TemporaryVolume => (h, done_if(h.on_volumes)),
        HomeStep::Copied => (h, HomeEvent::Answer(h.copy is Some && h.image)),
        HomeStep::CompareCopy => (h, done_if(h.copy == Some(h.source))),
        HomeStep::SourceUnchanged => (h, done_if(h.steady)),
        HomeStep::MakeTemporary => (
            FileHost { temporary: Some(Seq::empty()), ..h },
            HomeEvent::Done,
        ),
        HomeStep::CopyRanges => (FileHost { temporary: Some(h.written), ..h }, HomeEvent::Done),
        HomeStep::CompareTemporary => (h, done_if(h.temporary == Some(h.source))),
        HomeStep::Authority => (h, done_if(h.allowed)),
        HomeStep::Persist => (FileHost { copy: h.temporary, temporary: None, ..h }, HomeEvent::Done),
        _ => (h, HomeEvent::Failed),
    }
}

/// The copy of a file from an answer on, for so many steps at most.
pub open spec fn file_copying(f: FileCopy, e: HomeEvent, h: FileHost, steps: nat) -> (
    FileHost,
    HomeOutcome,
)
    decreases steps,
{
    let (next, step) = file_after(f, e);
    match step {
        HomeStep::Finish(outcome) => (h, outcome),
        _ => if steps == 0 {
            (h, HomeOutcome::Failed)
        } else {
            let (changed, answer) = file_answer(h, step);
            file_copying(next, answer, changed, (steps - 1) as nat)
        },
    }
}

/// The host after the copy of a file, and how that ended.
pub open spec fn file_copied(h: FileHost) -> (FileHost, HomeOutcome) {
    file_copying(
        FileCopy { at: FileAt::Start, compared: false, current: false },
        HomeEvent::Begin,
        h,
        20,
    )
}

/// A copy that ends well has the bytes of its source. One that ends otherwise leaves
/// what stood under its name, and no copy touches the source.
pub proof fn copies_equal_their_source(h: FileHost)
    ensures
        file_copied(h).1 == HomeOutcome::Done ==> file_copied(h).0.copy == Some(h.source),
        file_copied(h).1 != HomeOutcome::Done ==> file_copied(h).0.copy == h.copy,
        file_copied(h).0.source == h.source,
{
    reveal_with_fuel(file_copying, 21);
}

/// A file is copied where its volumes are there, the owner wants it, the source stays
/// as it is and its bytes arrive.
pub proof fn files_are_copied(h: FileHost)
    requires
        h.on_volumes && h.allowed && h.steady,
        h.written == h.source,
        h.copy is None,
    ensures
        file_copied(h).1 == HomeOutcome::Done,
{
    reveal_with_fuel(file_copying, 21);
}

/// An image that was copied before is kept: nothing is written for it.
pub proof fn copied_images_are_kept(h: FileHost)
    requires
        h.image && h.copy == Some(h.source),
        h.on_volumes && h.steady,
    ensures
        file_copied(h) == (h, HomeOutcome::Done),
{
    reveal_with_fuel(file_copying, 21);
}

/// A host on which the files of a stopped VM are copied. A VM is either whole or a
/// part of one.
pub struct MoveHost {
    /// The record of the original's files, and the one that was saved of them.
    pub files: JsonView,
    pub marker: Option<JsonView>,
    /// The VM beside its place and in its place; whether it is whole.
    pub staged: Option<bool>,
    pub worker: Option<bool>,
    /// Whether the new directory can be prepared.
    pub preparable: bool,
    /// Whether the original stands on a volume and its links lead where they may.
    pub readable: bool,
    /// Whether the owner still wants this, at the beginning and at the end.
    pub allowed: bool,
    /// Whether the copying is cut off before its end.
    pub cut: bool,
}

/// What a step of a move does to the host, and what it hears back. The saved record is
/// accepted while the original has the recorded files.
pub open spec fn move_answer(h: MoveHost, step: HomeStep) -> (MoveHost, HomeEvent) {
    match step {
        HomeStep::Authority => (h, done_if(h.allowed)),
        HomeStep::Prepare | HomeStep::Validate => (h, done_if(h.preparable)),
        HomeStep::SourceVolume | HomeStep::AllowedLinks => (h, done_if(h.readable)),
        HomeStep::MarkerExists => (h, HomeEvent::Answer(h.marker is Some)),
        HomeStep::VerifySource => (h, done_if(h.marker == Some(h.files))),
        HomeStep::WriteMarker => (MoveHost { marker: Some(h.files), ..h }, HomeEvent::Done),
        HomeStep::SyncSource | HomeStep::SyncHome => (h, HomeEvent::Done),
        HomeStep::Walk => (
            if h.worker is Some || h.staged == Some(true) {
                h
            } else {
                MoveHost { staged: Some(!h.cut), ..h }
            },
            done_if(!h.cut),
        ),
        HomeStep::StagedExists => (h, HomeEvent::Answer(h.staged is Some)),
        HomeStep::WorkerExists => (h, HomeEvent::Answer(h.worker is Some)),
        HomeStep::RenameStaged => (
            MoveHost { worker: h.staged, staged: None, ..h },
            HomeEvent::Done,
        ),
        _ => (h, HomeEvent::Failed),
    }
}

/// A move from an answer on, for so many steps at most.
pub open spec fn moving(c: Copying, e: HomeEvent, h: MoveHost, steps: nat) -> (
    MoveHost,
    HomeOutcome,
)
    decreases steps,
{
    let (next, step) = move_after(c, e);
    match step {
        HomeStep::Finish(outcome) => (h, outcome),
        _ => if steps == 0 {
            (h, HomeOutcome::Failed)
        } else {
            let (changed, answer) = move_answer(h, step);
            moving(next, answer, changed, (steps - 1) as nat)
        },
    }
}

/// The host after a move between directories that are apart or not, and how that
/// ended.
pub open spec fn moved(h: MoveHost, apart: bool) -> (MoveHost, HomeOutcome) {
    moving(
        Copying { at: MoveAt::Start, apart, copied: false, verified: false },
        HomeEvent::Begin,
        h,
        20,
    )
}

/// Whether the VM is whole, in its place or beside it.
spec fn is_whole(h: MoveHost) -> bool {
    h.worker == Some(true) || (h.worker is None && h.staged == Some(true))
}

/// What holds before each answer of a move.
spec fn stays_whole(c: Copying, e: HomeEvent, h: MoveHost) -> bool {
    &&& h.worker is None || h.worker == Some(true)
    &&& match c.at {
        MoveAt::Walked => e == HomeEvent::Done ==> is_whole(h),
        MoveAt::StillAllowed | MoveAt::HomeSynced | MoveAt::SourceUnchanged => is_whole(h),
        MoveAt::StagedSeen => is_whole(h) && e == HomeEvent::Answer(h.staged is Some),
        MoveAt::WorkerSeen => is_whole(h) && e == HomeEvent::Answer(h.worker is Some),
        MoveAt::Renamed | MoveAt::LastSynced | MoveAt::Validated => h.worker == Some(true),
        MoveAt::Over => false,
        _ => true,
    }
}

proof fn lemma_moving_stays_whole(c: Copying, e: HomeEvent, h: MoveHost, steps: nat)
    requires
        stays_whole(c, e, h),
    ensures
        moving(c, e, h, steps).0.worker is None || moving(c, e, h, steps).0.worker == Some(true),
        moving(c, e, h, steps).1 == HomeOutcome::Done ==> moving(c, e, h, steps).0.worker == Some(
            true,
        ),
    decreases steps,
{
    let (next, step) = move_after(c, e);
    if !(step is Finish) && steps > 0 {
        let (changed, answer) = move_answer(h, step);
        assert(stays_whole(next, answer, changed));
        lemma_moving_stays_whole(next, answer, changed, (steps - 1) as nat);
    }
}

/// Whatever happens to a move: where no VM stood, either none stands or a whole one,
/// and only a whole one where the move ended well.
pub proof fn partial_vms_are_never_seen(h: MoveHost, apart: bool)
    requires
        h.worker is None,
    ensures
        moved(h, apart).0.worker is None || moved(h, apart).0.worker == Some(true),
        moved(h, apart).1 == HomeOutcome::Done ==> moved(h, apart).0.worker == Some(true),
{
    lemma_moving_stays_whole(
        Copying { at: MoveAt::Start, apart, copied: false, verified: false },
        HomeEvent::Begin,
        h,
        20,
    );
}

/// A host on which nothing but a cut stands against a move.
pub open spec fn can_move(h: MoveHost) -> bool {
    h.preparable && h.readable && h.allowed && (h.marker matches Some(saved) ==> saved == h.files)
}

/// A copy that has come to its walk through the files.
proof fn lemma_to_walk(h: MoveHost)
    requires
        can_move(h),
    ensures
        ({
            let known = MoveHost { marker: Some(h.files), ..h };
            let c = Copying { at: MoveAt::Walked, apart: true, copied: false, verified: false };
            let (walked, e) = move_answer(known, HomeStep::Walk);
            moved(h, true) == moving(
                c,
                e,
                walked,
                if h.marker is Some {
                    13nat
                } else {
                    12nat
                },
            )
        }),
{
    reveal_with_fuel(moving, 9);
    assert(h.marker is Some ==> MoveHost { marker: Some(h.files), ..h } == h);
}

/// What a cut leaves of a move.
proof fn lemma_cut(h: MoveHost)
    requires
        can_move(h),
        h.worker is None,
        h.cut,
    ensures
        moved(h, true).1 == HomeOutcome::Failed,
        moved(h, true).0 == (MoveHost {
            marker: Some(h.files),
            staged: if h.staged == Some(true) {
                h.staged
            } else {
                Some(false)
            },
            ..h
        }),
{
    lemma_to_walk(h);
    reveal_with_fuel(moving, 2);
}

proof fn lemma_uncut(h: MoveHost)
    requires
        can_move(h),
        h.worker is None,
        !h.cut,
    ensures
        moved(h, true) == (
            MoveHost { marker: Some(h.files), staged: None, worker: Some(true), ..h },
            HomeOutcome::Done,
        ),
{
    lemma_to_walk(h);
    reveal_with_fuel(moving, 10);
}

proof fn lemma_again(h: MoveHost)
    requires
        can_move(h),
        h.marker is Some,
        h.worker == Some(true),
        h.staged is None,
        !h.cut,
    ensures
        moved(h, true) == (h, HomeOutcome::Done),
{
    lemma_to_walk(h);
    reveal_with_fuel(moving, 8);
}

/// A move that was cut off leaves no VM in its place. One that is tried again without
/// a cut ends well with a whole VM, and once more without a change.
pub proof fn cut_moves_can_be_repeated(h: MoveHost)
    requires
        can_move(h),
        h.worker is None,
        h.cut,
    ensures
        moved(h, true).1 == HomeOutcome::Failed,
        moved(h, true).0.worker is None,
        ({
            let again = moved(MoveHost { cut: false, ..moved(h, true).0 }, true);
            &&& again.1 == HomeOutcome::Done
            &&& again.0.worker == Some(true)
            &&& moved(again.0, true) == (again.0, HomeOutcome::Done)
        }),
{
    lemma_cut(h);
    let after = MoveHost { cut: false, ..moved(h, true).0 };
    lemma_uncut(after);
    lemma_again(moved(after, true).0);
}

/// An original that changed after its files were recorded is not moved: the new place
/// stays as it is.
pub proof fn changed_originals_are_not_moved(h: MoveHost, apart: bool)
    requires
        h.marker matches Some(saved) && saved != h.files,
    ensures
        moved(h, apart) == (h, HomeOutcome::Failed),
{
    reveal_with_fuel(moving, 7);
}

} // verus!
