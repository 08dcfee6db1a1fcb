//! Whole runs of the operations on Lima disks, seen from outside: which step follows
//! which answer, whatever the answers were before.
use crate::lima_storage::{
    commit_after, create_after, discard_after, fresh_creation, grow_after, growth_of, remove_after,
    stage_after, CommitAt, Committing, Creating, DiscardAt, Discarding, DiskEvent, DiskOutcome,
    DiskRefusal, DiskStep, GrowAt, Growing, Growth, LinkState, LinkTarget, MakeAt, RemoveAt,
    Removing, StageAt, Staging,
};
use crate::storage::LocationView;
use vstd::prelude::*;

verus! {

/// A move of the machine.
#[verifier::opaque]
spec fn make_moved(t: Creating, e: DiskEvent) -> (Creating, DiskStep) {
    create_after(t, e)
}

/// What is reached after these answers.
#[verifier::opaque]
pub open spec fn make_reached(es: Seq<DiskEvent>) -> Creating
    decreases es.len(),
{
    if es.len() == 0 {
        fresh_creation()
    } else {
        create_after(make_reached(es.drop_last()), es.last()).0
    }
}

/// What is asked for after these answers.
#[verifier::opaque]
pub open spec fn make_asked(es: Seq<DiskEvent>) -> DiskStep
    recommends
        es.len() > 0,
{
    create_after(make_reached(es.drop_last()), es.last()).1
}

proof fn make_lemma_push(es: Seq<DiskEvent>, e: DiskEvent)
    ensures
        make_reached(es.push(e)) == make_moved(make_reached(es), e).0,
        make_asked(es.push(e)) == make_moved(make_reached(es), e).1,
{
    reveal(make_reached);
    reveal(make_asked);
    reveal(make_moved);
    assert(es.push(e).drop_last() =~= es);
}

proof fn make_lemma_fresh()
    ensures
        make_reached(Seq::empty()) == fresh_creation(),
{
    reveal(make_reached);
}

/// What is kept through a run, and the step that was asked for where it stands.
spec fn make_entered(t: Creating, s: DiskStep) -> bool {
    true && match t.at {
        MakeAt::Start => false,
        MakeAt::Locked => s == DiskStep::Lock,
        MakeAt::Stopped => s == DiskStep::Stopped,
        MakeAt::LinkSeen => s == DiskStep::LinkExists,
        MakeAt::PendingSeen => s == DiskStep::PendingExists,
        MakeAt::Inspected => s == DiskStep::Inspect,
        MakeAt::PendingVerified => s == DiskStep::VerifyPending,
        MakeAt::BackingSeen => s == DiskStep::BackingValid,
        MakeAt::StateSeen => s == DiskStep::LinkState,
        MakeAt::EmptyPrivate => s == DiskStep::PrivateLink,
        MakeAt::EmptyRemoved => s == DiskStep::RemoveLinkDirectory,
        MakeAt::LinkInstalled => s == DiskStep::InstallLink,
        MakeAt::LinkSynced => s == DiskStep::SyncRegistry,
        MakeAt::LinkInspected => s == DiskStep::Inspect,
        MakeAt::PendingRemoved => s == DiskStep::RemovePending,
        MakeAt::DirectorySeen => s == DiskStep::DirectoryExists,
        MakeAt::LinkRechecked => s == DiskStep::LinkExists,
        MakeAt::PendingWritten => s == DiskStep::WritePending,
        MakeAt::ParentReady => s == DiskStep::PrepareParent,
        MakeAt::RegistryReady => s == DiskStep::PrepareRegistry,
        MakeAt::RuntimeSeen => s == DiskStep::LinkExists,
        MakeAt::RuntimeMade => s == DiskStep::CreateRuntimeDisk,
        MakeAt::SymlinkSeen => s == DiskStep::LinkIsSymlink,
        MakeAt::LinkPrivate => s == DiskStep::PrivateLink,
        MakeAt::DiskValid => s == DiskStep::NewDiskValid,
        MakeAt::ImageRestricted => s == DiskStep::RestrictImage,
        MakeAt::Staged => s == DiskStep::StageCopy,
        MakeAt::Relocked => s == DiskStep::Lock,
        MakeAt::Restopped => s == DiskStep::Stopped,
        MakeAt::Backed => s == DiskStep::BackingValid,
        MakeAt::FilesSeen => s == DiskStep::OnlyImage,
        MakeAt::ImageRemoved => s == DiskStep::RemoveRuntimeImage,
        MakeAt::DirectoryRemoved => s == DiskStep::RemoveLinkDirectory,
        MakeAt::Linked => s == DiskStep::InstallLink,
        MakeAt::Synced => s == DiskStep::SyncRegistry,
        MakeAt::Forgotten => s == DiskStep::RemovePending,
        MakeAt::LastInspected => s == DiskStep::Inspect,
        MakeAt::Over => s is Finish,
    }
}

/// What is kept through a run.
spec fn make_kept(t: Creating) -> bool {
    true
}

#[verifier::rlimit(60)]
#[verifier::spinoff_prover]
proof fn make_lemma_enters(t: Creating, s: DiskStep, e: DiskEvent)
    requires
        make_kept(t),
        t.at == MakeAt::Start || make_entered(t, s),
    ensures
        make_entered(make_moved(t, e).0, make_moved(t, e).1),
{
    reveal(make_moved);
}

proof fn make_lemma_run(es: Seq<DiskEvent>)
    requires
        es.len() > 0,
    ensures
        make_entered(make_reached(es), make_asked(es)),
    decreases es.len(),
{
    let less = es.drop_last();
    assert(es =~= less.push(es.last()));
    make_lemma_push(less, es.last());
    if less.len() == 0 {
        make_lemma_fresh();
        assert(less =~= Seq::empty());
    } else {
        make_lemma_run(less);
    }
    make_lemma_enters(make_reached(less), make_asked(less), es.last());
}

/// A disk is created under the storage lock and with the worker stopped. One that is
/// registered already and not half made is only looked at.
pub proof fn creations_begin_locked(here: bool)
    ensures
        make_asked(seq![DiskEvent::Begin]) == (DiskStep::Lock),
        make_asked(seq![DiskEvent::Begin].push(DiskEvent::Done)) == (DiskStep::Stopped),
        make_asked(seq![DiskEvent::Begin].push(DiskEvent::Done).push(DiskEvent::Done))
            == (DiskStep::LinkExists),
        make_asked(seq![DiskEvent::Begin].push(DiskEvent::Done).push(DiskEvent::Done).push(DiskEvent::Answer(here))) == (DiskStep::PendingExists),
        make_asked(seq![DiskEvent::Begin].push(DiskEvent::Done).push(DiskEvent::Done).push(DiskEvent::Answer(here)).push(DiskEvent::Answer(true))) == (DiskStep::VerifyPending),
        make_asked(seq![DiskEvent::Begin].push(DiskEvent::Done).push(DiskEvent::Done).push(DiskEvent::Answer(here)).push(DiskEvent::Answer(false))) == (if here { DiskStep::Inspect } else { DiskStep::DirectoryExists }),
        make_asked(seq![DiskEvent::Begin].push(DiskEvent::Done).push(DiskEvent::Done).push(DiskEvent::Answer(true)).push(DiskEvent::Answer(false)).push(DiskEvent::Done)) == (DiskStep::Finish(DiskOutcome::Done)),
{
    let none = Seq::<DiskEvent>::empty();
    assert(none.push(DiskEvent::Begin) =~= seq![DiskEvent::Begin]);
    make_lemma_fresh();
    make_lemma_push(none, DiskEvent::Begin);
    make_lemma_push(seq![DiskEvent::Begin], DiskEvent::Done);
    make_lemma_push(seq![DiskEvent::Begin], DiskEvent::Done);
    make_lemma_push(seq![DiskEvent::Begin].push(DiskEvent::Done), DiskEvent::Done);
    make_lemma_push(seq![DiskEvent::Begin], DiskEvent::Done);
    make_lemma_push(seq![DiskEvent::Begin].push(DiskEvent::Done), DiskEvent::Done);
    make_lemma_push(seq![DiskEvent::Begin].push(DiskEvent::Done).push(DiskEvent::Done),
        DiskEvent::Answer(here));
    make_lemma_push(seq![DiskEvent::Begin], DiskEvent::Done);
    make_lemma_push(seq![DiskEvent::Begin].push(DiskEvent::Done), DiskEvent::Done);
    make_lemma_push(seq![DiskEvent::Begin].push(DiskEvent::Done).push(DiskEvent::Done),
        DiskEvent::Answer(here));
    make_lemma_push(seq![DiskEvent::Begin].push(DiskEvent::Done).push(DiskEvent::Done).push(DiskEvent::Answer(here)), DiskEvent::Answer(true));
    make_lemma_push(seq![DiskEvent::Begin], DiskEvent::Done);
    make_lemma_push(seq![DiskEvent::Begin].push(DiskEvent::Done), DiskEvent::Done);
    make_lemma_push(seq![DiskEvent::Begin].push(DiskEvent::Done).push(DiskEvent::Done),
        DiskEvent::Answer(here));
    make_lemma_push(seq![DiskEvent::Begin].push(DiskEvent::Done).push(DiskEvent::Done).push(DiskEvent::Answer(here)), DiskEvent::Answer(false));
    make_lemma_push(seq![DiskEvent::Begin], DiskEvent::Done);
    make_lemma_push(seq![DiskEvent::Begin].push(DiskEvent::Done), DiskEvent::Done);
    make_lemma_push(seq![DiskEvent::Begin].push(DiskEvent::Done).push(DiskEvent::Done),
        DiskEvent::Answer(true));
    make_lemma_push(seq![DiskEvent::Begin].push(DiskEvent::Done).push(DiskEvent::Done).push(DiskEvent::Answer(true)), DiskEvent::Answer(false));
    make_lemma_push(seq![DiskEvent::Begin].push(DiskEvent::Done).push(DiskEvent::Done).push(DiskEvent::Answer(true)).push(DiskEvent::Answer(false)), DiskEvent::Done);
    reveal(make_moved);
}

proof fn lemma_new_disks_are_recorded_before_they_are_made_0(t: Creating, here: bool)
    requires
        t.at == MakeAt::DirectorySeen,
        make_kept(t),
    ensures
        ({
            &&& make_moved(t, DiskEvent::Answer(here)).1
                == (if here { DiskStep::Finish(DiskOutcome::Refused(DiskRefusal::DirectoryTaken)) } else { DiskStep::LinkExists })
            &&& make_moved(make_moved(t, DiskEvent::Answer(false)).0, DiskEvent::Answer(here)).1
                == (if here { DiskStep::Finish(DiskOutcome::Refused(DiskRefusal::RuntimeTaken)) } else { DiskStep::WritePending })
        }),
{
    reveal(make_moved);
}

proof fn lemma_new_disks_are_recorded_before_they_are_made_1(t: Creating, here: bool)
    requires
        t.at == MakeAt::PendingWritten,
        make_kept(t),
    ensures
        ({
            &&& make_moved(t, DiskEvent::Done).1 == (DiskStep::PrepareParent)
        }),
{
    reveal(make_moved);
}

proof fn lemma_new_disks_are_recorded_before_they_are_made_2(t: Creating, here: bool)
    requires
        t.at == MakeAt::ParentReady,
        make_kept(t),
    ensures
        ({
            &&& make_moved(t, DiskEvent::Done).1 == (DiskStep::PrepareRegistry)
        }),
{
    reveal(make_moved);
}

proof fn lemma_new_disks_are_recorded_before_they_are_made_3(t: Creating, here: bool)
    requires
        t.at == MakeAt::RegistryReady,
        make_kept(t),
    ensures
        ({
            &&& make_moved(t, DiskEvent::Done).1 == (DiskStep::LinkExists)
            &&& make_moved(make_moved(t, DiskEvent::Done).0, DiskEvent::Answer(here)).1
                == (if here { DiskStep::LinkIsSymlink } else { DiskStep::CreateRuntimeDisk })
        }),
{
    reveal(make_moved);
}

proof fn lemma_new_disks_are_recorded_before_they_are_made_4(t: Creating, here: bool)
    requires
        t.at == MakeAt::RuntimeMade,
        make_kept(t),
    ensures
        ({
            &&& make_moved(t, DiskEvent::Done).1 == (DiskStep::LinkIsSymlink)
        }),
{
    reveal(make_moved);
}

proof fn lemma_new_disks_are_recorded_before_they_are_made_5(t: Creating, here: bool)
    requires
        t.at == MakeAt::SymlinkSeen,
        make_kept(t),
    ensures
        ({
            &&& make_moved(t, DiskEvent::Answer(here)).1
                == (if here { DiskStep::Inspect } else { DiskStep::PrivateLink })
            &&& make_moved(make_moved(t, DiskEvent::Answer(true)).0, DiskEvent::Done).1
                == (DiskStep::RemovePending)
            &&& make_moved(make_moved(make_moved(t, DiskEvent::Answer(true)).0, DiskEvent::Done).0,
                DiskEvent::Done).1 == (DiskStep::Finish(DiskOutcome::Done))
            &&& make_moved(make_moved(t, DiskEvent::Answer(false)).0, DiskEvent::Done).1
                == (DiskStep::NewDiskValid)
        }),
{
    reveal(make_moved);
}

proof fn lemma_new_disks_are_recorded_before_they_are_made_6(t: Creating, here: bool)
    requires
        t.at == MakeAt::DiskValid,
        make_kept(t),
    ensures
        ({
            &&& make_moved(t, DiskEvent::Done).1 == (DiskStep::RestrictImage)
        }),
{
    reveal(make_moved);
}

proof fn lemma_new_disks_are_recorded_before_they_are_made_7(t: Creating, here: bool)
    requires
        t.at == MakeAt::ImageRestricted,
        make_kept(t),
    ensures
        ({
            &&& make_moved(t, DiskEvent::Done).1 == (DiskStep::StageCopy)
        }),
{
    reveal(make_moved);
}

/// A disk is begun only where nothing stands in its place, on record before anything of it
/// is made; the runtime makes it, and what it made is checked, restricted and copied to
/// its place.
pub proof fn new_disks_are_recorded_before_they_are_made(es: Seq<DiskEvent>, here: bool)
    requires
        es.len() > 0,
    ensures
        ({
            let s = make_asked(es);
            let t = make_reached(es);
            &&& s == DiskStep::DirectoryExists
                ==> make_asked(es.push(DiskEvent::Answer(here)))
                    == (if here { DiskStep::Finish(DiskOutcome::Refused(DiskRefusal::DirectoryTaken)) } else { DiskStep::LinkExists })
            &&& s == DiskStep::DirectoryExists
                ==> make_asked(es.push(DiskEvent::Answer(false)).push(DiskEvent::Answer(here)))
                    == (if here { DiskStep::Finish(DiskOutcome::Refused(DiskRefusal::RuntimeTaken)) } else { DiskStep::WritePending })
            &&& s == DiskStep::WritePending
                ==> make_asked(es.push(DiskEvent::Done)) == (DiskStep::PrepareParent)
            &&& s == DiskStep::PrepareParent
                ==> make_asked(es.push(DiskEvent::Done)) == (DiskStep::PrepareRegistry)
            &&& s == DiskStep::PrepareRegistry
                ==> make_asked(es.push(DiskEvent::Done)) == (DiskStep::LinkExists)
            &&& s == DiskStep::PrepareRegistry
                ==> make_asked(es.push(DiskEvent::Done).push(DiskEvent::Answer(here)))
                    == (if here { DiskStep::LinkIsSymlink } else { DiskStep::CreateRuntimeDisk })
            &&& s == DiskStep::CreateRuntimeDisk
                ==> make_asked(es.push(DiskEvent::Done)) == (DiskStep::LinkIsSymlink)
            &&& s == DiskStep::LinkIsSymlink
                ==> make_asked(es.push(DiskEvent::Answer(here)))
                    == (if here { DiskStep::Inspect } else { DiskStep::PrivateLink })
            &&& s == DiskStep::LinkIsSymlink
                ==> make_asked(es.push(DiskEvent::Answer(true)).push(DiskEvent::Done))
                    == (DiskStep::RemovePending)
            &&& s == DiskStep::LinkIsSymlink
                ==> make_asked(es.push(DiskEvent::Answer(true)).push(DiskEvent::Done).push(DiskEvent::Done)) == (DiskStep::Finish(DiskOutcome::Done))
            &&& s == DiskStep::LinkIsSymlink
                ==> make_asked(es.push(DiskEvent::Answer(false)).push(DiskEvent::Done))
                    == (DiskStep::NewDiskValid)
            &&& s == DiskStep::NewDiskValid
                ==> make_asked(es.push(DiskEvent::Done)) == (DiskStep::RestrictImage)
            &&& s == DiskStep::RestrictImage
                ==> make_asked(es.push(DiskEvent::Done)) == (DiskStep::StageCopy)
        }),
{
    make_lemma_run(es);
    let s = make_asked(es);
    let t = make_reached(es);
    if s == DiskStep::DirectoryExists {
        lemma_new_disks_are_recorded_before_they_are_made_0(t, here);
        make_lemma_push(es, DiskEvent::Answer(here));
        make_lemma_push(es, DiskEvent::Answer(false));
        make_lemma_push(es.push(DiskEvent::Answer(false)), DiskEvent::Answer(here));
    }
    if s == DiskStep::WritePending {
        lemma_new_disks_are_recorded_before_they_are_made_1(t, here);
        make_lemma_push(es, DiskEvent::Done);
    }
    if s == DiskStep::PrepareParent {
        lemma_new_disks_are_recorded_before_they_are_made_2(t, here);
        make_lemma_push(es, DiskEvent::Done);
    }
    if s == DiskStep::PrepareRegistry {
        lemma_new_disks_are_recorded_before_they_are_made_3(t, here);
        make_lemma_push(es, DiskEvent::Done);
        make_lemma_push(es.push(DiskEvent::Done), DiskEvent::Answer(here));
    }
    if s == DiskStep::CreateRuntimeDisk {
        lemma_new_disks_are_recorded_before_they_are_made_4(t, here);
        make_lemma_push(es, DiskEvent::Done);
    }
    if s == DiskStep::LinkIsSymlink {
        lemma_new_disks_are_recorded_before_they_are_made_5(t, here);
        make_lemma_push(es, DiskEvent::Answer(here));
        make_lemma_push(es, DiskEvent::Answer(true));
        make_lemma_push(es.push(DiskEvent::Answer(true)), DiskEvent::Done);
        make_lemma_push(es.push(DiskEvent::Answer(true)).push(DiskEvent::Done), DiskEvent::Done);
        make_lemma_push(es, DiskEvent::Answer(false));
        make_lemma_push(es.push(DiskEvent::Answer(false)), DiskEvent::Done);
    }
    if s == DiskStep::NewDiskValid {
        lemma_new_disks_are_recorded_before_they_are_made_6(t, here);
        make_lemma_push(es, DiskEvent::Done);
    }
    if s == DiskStep::RestrictImage {
        lemma_new_disks_are_recorded_before_they_are_made_7(t, here);
        make_lemma_push(es, DiskEvent::Done);
    }
}

proof fn lemma_runtime_images_go_behind_their_copy_0(t: Creating, here: bool)
    requires
        t.at == MakeAt::Staged,
        make_kept(t),
    ensures
        ({
            &&& make_moved(t, DiskEvent::Done).1 == (DiskStep::Lock)
            &&& make_moved(make_moved(t, DiskEvent::Done).0, DiskEvent::Done).1
                == (DiskStep::Stopped)
            &&& make_moved(make_moved(make_moved(t, DiskEvent::Done).0, DiskEvent::Done).0,
                DiskEvent::Done).1 == (DiskStep::BackingValid)
            &&& make_moved(make_moved(make_moved(make_moved(t, DiskEvent::Done).0,
                DiskEvent::Done).0, DiskEvent::Done).0, DiskEvent::Done).1 == (DiskStep::OnlyImage)
        }),
{
    reveal(make_moved);
}

proof fn lemma_runtime_images_go_behind_their_copy_1(t: Creating, here: bool)
    requires
        t.at == MakeAt::FilesSeen,
        make_kept(t),
    ensures
        ({
            &&& make_moved(t, DiskEvent::Answer(here)).1
                == (if here { DiskStep::RemoveRuntimeImage } else { DiskStep::Finish(DiskOutcome::Refused(DiskRefusal::UnexpectedRuntimeFiles)) })
        }),
{
    reveal(make_moved);
}

proof fn lemma_runtime_images_go_behind_their_copy_2(t: Creating, here: bool)
    requires
        t.at == MakeAt::ImageRemoved,
        make_kept(t),
    ensures
        ({
            &&& make_moved(t, DiskEvent::Done).1 == (DiskStep::RemoveLinkDirectory)
            &&& make_moved(make_moved(t, DiskEvent::Done).0, DiskEvent::Done).1
                == (DiskStep::InstallLink)
            &&& make_moved(make_moved(make_moved(t, DiskEvent::Done).0, DiskEvent::Done).0,
                DiskEvent::Done).1 == (DiskStep::SyncRegistry)
            &&& make_moved(make_moved(make_moved(make_moved(t, DiskEvent::Done).0,
                DiskEvent::Done).0, DiskEvent::Done).0, DiskEvent::Done).1
                    == (DiskStep::RemovePending)
            &&& make_moved(make_moved(make_moved(make_moved(make_moved(t, DiskEvent::Done).0,
                DiskEvent::Done).0, DiskEvent::Done).0, DiskEvent::Done).0, DiskEvent::Done).1
                    == (DiskStep::Inspect)
            &&& make_moved(make_moved(make_moved(make_moved(make_moved(make_moved(t,
                DiskEvent::Done).0, DiskEvent::Done).0, DiskEvent::Done).0, DiskEvent::Done).0,
                    DiskEvent::Done).0, DiskEvent::Done).1 == (DiskStep::Finish(DiskOutcome::Done))
        }),
{
    reveal(make_moved);
}

/// The runtime's own image goes only after its copy is in place and, under the lock and
/// with the worker stopped, the disk's files were checked and nothing else stands beside
/// the image; then the disk is registered, and it is made no longer.
pub proof fn runtime_images_go_behind_their_copy(es: Seq<DiskEvent>, here: bool)
    requires
        es.len() > 0,
    ensures
        ({
            let s = make_asked(es);
            let t = make_reached(es);
            &&& s == DiskStep::StageCopy
                ==> make_asked(es.push(DiskEvent::Done)) == (DiskStep::Lock)
            &&& s == DiskStep::StageCopy
                ==> make_asked(es.push(DiskEvent::Done).push(DiskEvent::Done))
                    == (DiskStep::Stopped)
            &&& s == DiskStep::StageCopy
                ==> make_asked(es.push(DiskEvent::Done).push(DiskEvent::Done).push(DiskEvent::Done)) == (DiskStep::BackingValid)
            &&& s == DiskStep::StageCopy
                ==> make_asked(es.push(DiskEvent::Done).push(DiskEvent::Done).push(DiskEvent::Done).push(DiskEvent::Done)) == (DiskStep::OnlyImage)
            &&& s == DiskStep::OnlyImage
                ==> make_asked(es.push(DiskEvent::Answer(here)))
                    == (if here { DiskStep::RemoveRuntimeImage } else { DiskStep::Finish(DiskOutcome::Refused(DiskRefusal::UnexpectedRuntimeFiles)) })
            &&& s == DiskStep::RemoveRuntimeImage
                ==> make_asked(es.push(DiskEvent::Done)) == (DiskStep::RemoveLinkDirectory)
            &&& s == DiskStep::RemoveRuntimeImage
                ==> make_asked(es.push(DiskEvent::Done).push(DiskEvent::Done))
                    == (DiskStep::InstallLink)
            &&& s == DiskStep::RemoveRuntimeImage
                ==> make_asked(es.push(DiskEvent::Done).push(DiskEvent::Done).push(DiskEvent::Done)) == (DiskStep::SyncRegistry)
            &&& s == DiskStep::RemoveRuntimeImage
                ==> make_asked(es.push(DiskEvent::Done).push(DiskEvent::Done).push(DiskEvent::Done).push(DiskEvent::Done)) == (DiskStep::RemovePending)
            &&& s == DiskStep::RemoveRuntimeImage
                ==> make_asked(es.push(DiskEvent::Done).push(DiskEvent::Done).push(DiskEvent::Done).push(DiskEvent::Done).push(DiskEvent::Done)) == (DiskStep::Inspect)
            &&& s == DiskStep::RemoveRuntimeImage
                ==> make_asked(es.push(DiskEvent::Done).push(DiskEvent::Done).push(DiskEvent::Done).push(DiskEvent::Done).push(DiskEvent::Done).push(DiskEvent::Done)) == (DiskStep::Finish(DiskOutcome::Done))
        }),
{
    make_lemma_run(es);
    let s = make_asked(es);
    let t = make_reached(es);
    if s == DiskStep::StageCopy {
        lemma_runtime_images_go_behind_their_copy_0(t, here);
        make_lemma_push(es, DiskEvent::Done);
        make_lemma_push(es.push(DiskEvent::Done), DiskEvent::Done);
        make_lemma_push(es.push(DiskEvent::Done).push(DiskEvent::Done), DiskEvent::Done);
        make_lemma_push(es.push(DiskEvent::Done).push(DiskEvent::Done).push(DiskEvent::Done),
            DiskEvent::Done);
    }
    if s == DiskStep::OnlyImage {
        lemma_runtime_images_go_behind_their_copy_1(t, here);
        make_lemma_push(es, DiskEvent::Answer(here));
    }
    if s == DiskStep::RemoveRuntimeImage {
        lemma_runtime_images_go_behind_their_copy_2(t, here);
        make_lemma_push(es, DiskEvent::Done);
        make_lemma_push(es.push(DiskEvent::Done), DiskEvent::Done);
        make_lemma_push(es.push(DiskEvent::Done).push(DiskEvent::Done), DiskEvent::Done);
        make_lemma_push(es.push(DiskEvent::Done).push(DiskEvent::Done).push(DiskEvent::Done),
            DiskEvent::Done);
        make_lemma_push(es.push(DiskEvent::Done).push(DiskEvent::Done).push(DiskEvent::Done).push(DiskEvent::Done), DiskEvent::Done);
        make_lemma_push(es.push(DiskEvent::Done).push(DiskEvent::Done).push(DiskEvent::Done).push(DiskEvent::Done).push(DiskEvent::Done), DiskEvent::Done);
    }
}

proof fn lemma_half_made_disks_are_finished_0(t: Creating)
    requires
        t.at == MakeAt::PendingVerified,
        make_kept(t),
    ensures
        ({
            &&& make_moved(t, DiskEvent::Done).1 == (DiskStep::BackingValid)
            &&& make_moved(make_moved(t, DiskEvent::Done).0, DiskEvent::Failed).1
                == (DiskStep::PrepareParent)
            &&& make_moved(make_moved(t, DiskEvent::Done).0, DiskEvent::Done).1
                == (DiskStep::LinkState)
        }),
{
    reveal(make_moved);
}

proof fn lemma_half_made_disks_are_finished_1(t: Creating)
    requires
        t.at == MakeAt::StateSeen,
        make_kept(t),
    ensures
        ({
            &&& make_moved(t, DiskEvent::Link(LinkState::Missing)).1 == (DiskStep::InstallLink)
            &&& make_moved(make_moved(t, DiskEvent::Link(LinkState::Missing)).0, DiskEvent::Done).1
                == (DiskStep::SyncRegistry)
            &&& make_moved(make_moved(make_moved(t, DiskEvent::Link(LinkState::Missing)).0,
                DiskEvent::Done).0, DiskEvent::Done).1 == (DiskStep::Inspect)
            &&& make_moved(make_moved(make_moved(make_moved(t,
                DiskEvent::Link(LinkState::Missing)).0, DiskEvent::Done).0, DiskEvent::Done).0,
                    DiskEvent::Done).1 == (DiskStep::RemovePending)
            &&& make_moved(make_moved(make_moved(make_moved(make_moved(t,
                DiskEvent::Link(LinkState::Missing)).0, DiskEvent::Done).0, DiskEvent::Done).0,
                    DiskEvent::Done).0, DiskEvent::Done).1 == (DiskStep::Finish(DiskOutcome::Done))
            &&& make_moved(t, DiskEvent::Link(LinkState::Empty)).1 == (DiskStep::PrivateLink)
            &&& make_moved(make_moved(t, DiskEvent::Link(LinkState::Empty)).0, DiskEvent::Done).1
                == (DiskStep::RemoveLinkDirectory)
            &&& make_moved(make_moved(make_moved(t, DiskEvent::Link(LinkState::Empty)).0,
                DiskEvent::Done).0, DiskEvent::Done).1 == (DiskStep::InstallLink)
            &&& make_moved(t, DiskEvent::Link(LinkState::Other)).1 == (DiskStep::PrepareParent)
        }),
{
    reveal(make_moved);
}

/// A creation that was cut is taken up only where its record is this one; files that are in
/// place are registered, and any others are made again.
pub proof fn half_made_disks_are_finished(es: Seq<DiskEvent>)
    requires
        es.len() > 0,
    ensures
        ({
            let s = make_asked(es);
            let t = make_reached(es);
            &&& s == DiskStep::VerifyPending
                ==> make_asked(es.push(DiskEvent::Done)) == (DiskStep::BackingValid)
            &&& s == DiskStep::VerifyPending
                ==> make_asked(es.push(DiskEvent::Done).push(DiskEvent::Failed))
                    == (DiskStep::PrepareParent)
            &&& s == DiskStep::VerifyPending
                ==> make_asked(es.push(DiskEvent::Done).push(DiskEvent::Done))
                    == (DiskStep::LinkState)
            &&& s == DiskStep::LinkState
                ==> make_asked(es.push(DiskEvent::Link(LinkState::Missing)))
                    == (DiskStep::InstallLink)
            &&& s == DiskStep::LinkState
                ==> make_asked(es.push(DiskEvent::Link(LinkState::Missing)).push(DiskEvent::Done))
                    == (DiskStep::SyncRegistry)
            &&& s == DiskStep::LinkState
                ==> make_asked(es.push(DiskEvent::Link(LinkState::Missing)).push(DiskEvent::Done).push(DiskEvent::Done)) == (DiskStep::Inspect)
            &&& s == DiskStep::LinkState
                ==> make_asked(es.push(DiskEvent::Link(LinkState::Missing)).push(DiskEvent::Done).push(DiskEvent::Done).push(DiskEvent::Done)) == (DiskStep::RemovePending)
            &&& s == DiskStep::LinkState
                ==> make_asked(es.push(DiskEvent::Link(LinkState::Missing)).push(DiskEvent::Done).push(DiskEvent::Done).push(DiskEvent::Done).push(DiskEvent::Done)) == (DiskStep::Finish(DiskOutcome::Done))
            &&& s == DiskStep::LinkState
                ==> make_asked(es.push(DiskEvent::Link(LinkState::Empty)))
                    == (DiskStep::PrivateLink)
            &&& s == DiskStep::LinkState
                ==> make_asked(es.push(DiskEvent::Link(LinkState::Empty)).push(DiskEvent::Done))
                    == (DiskStep::RemoveLinkDirectory)
            &&& s == DiskStep::LinkState
                ==> make_asked(es.push(DiskEvent::Link(LinkState::Empty)).push(DiskEvent::Done).push(DiskEvent::Done)) == (DiskStep::InstallLink)
            &&& s == DiskStep::LinkState
                ==> make_asked(es.push(DiskEvent::Link(LinkState::Other)))
                    == (DiskStep::PrepareParent)
        }),
{
    make_lemma_run(es);
    let s = make_asked(es);
    let t = make_reached(es);
    if s == DiskStep::VerifyPending {
        lemma_half_made_disks_are_finished_0(t);
        make_lemma_push(es, DiskEvent::Done);
        make_lemma_push(es.push(DiskEvent::Done), DiskEvent::Failed);
        make_lemma_push(es.push(DiskEvent::Done), DiskEvent::Done);
    }
    if s == DiskStep::LinkState {
        lemma_half_made_disks_are_finished_1(t);
        make_lemma_push(es, DiskEvent::Link(LinkState::Missing));
        make_lemma_push(es.push(DiskEvent::Link(LinkState::Missing)), DiskEvent::Done);
        make_lemma_push(es.push(DiskEvent::Link(LinkState::Missing)).push(DiskEvent::Done),
            DiskEvent::Done);
        make_lemma_push(es.push(DiskEvent::Link(LinkState::Missing)).push(DiskEvent::Done).push(DiskEvent::Done), DiskEvent::Done);
        make_lemma_push(es.push(DiskEvent::Link(LinkState::Missing)).push(DiskEvent::Done).push(DiskEvent::Done).push(DiskEvent::Done), DiskEvent::Done);
        make_lemma_push(es, DiskEvent::Link(LinkState::Empty));
        make_lemma_push(es.push(DiskEvent::Link(LinkState::Empty)), DiskEvent::Done);
        make_lemma_push(es.push(DiskEvent::Link(LinkState::Empty)).push(DiskEvent::Done),
            DiskEvent::Done);
        make_lemma_push(es, DiskEvent::Link(LinkState::Other));
    }
}

#[verifier::rlimit(60)]
#[verifier::spinoff_prover]
proof fn lemma_failed_creations_end(t: Creating, s: DiskStep)
    requires
        make_entered(t, s),
        s == DiskStep::Lock || s == DiskStep::Stopped || s == DiskStep::LinkExists || s
            == DiskStep::PendingExists || s == DiskStep::Inspect || s
                == DiskStep::VerifyPending || s == DiskStep::LinkState || s
                    == DiskStep::PrivateLink || s == DiskStep::WritePending || s
                        == DiskStep::PrepareParent || s == DiskStep::PrepareRegistry || s
                            == DiskStep::CreateRuntimeDisk || s == DiskStep::LinkIsSymlink || s
                                == DiskStep::NewDiskValid || s == DiskStep::RestrictImage || s
                                    == DiskStep::StageCopy || s == DiskStep::OnlyImage || s
                                        == DiskStep::RemoveRuntimeImage || s
                                            == DiskStep::InstallLink || s
                                                == DiskStep::SyncRegistry || s
                                                    == DiskStep::RemovePending,
    ensures
        make_moved(t, DiskEvent::Failed).1 == DiskStep::Finish(DiskOutcome::Failed),
{
    reveal(make_moved);
}

/// A creation ends at a step that fails, and can be taken up again.
pub proof fn failed_creations_end(es: Seq<DiskEvent>)
    requires
        es.len() > 0,
        make_asked(es) == DiskStep::Lock || make_asked(es) == DiskStep::Stopped || make_asked(es)
            == DiskStep::LinkExists || make_asked(es) == DiskStep::PendingExists || make_asked(es)
                == DiskStep::Inspect || make_asked(es) == DiskStep::VerifyPending || make_asked(es)
                    == DiskStep::LinkState || make_asked(es)
                        == DiskStep::PrivateLink || make_asked(es)
                            == DiskStep::WritePending || make_asked(es)
                                == DiskStep::PrepareParent || make_asked(es)
                                    == DiskStep::PrepareRegistry || make_asked(es)
                                        == DiskStep::CreateRuntimeDisk || make_asked(es)
                                            == DiskStep::LinkIsSymlink || make_asked(es)
                                                == DiskStep::NewDiskValid || make_asked(es)
                                                    == DiskStep::RestrictImage || make_asked(es)
                                                        == DiskStep::StageCopy || make_asked(es)
                                                            == DiskStep::OnlyImage || make_asked(es) == DiskStep::RemoveRuntimeImage || make_asked(es) == DiskStep::InstallLink || make_asked(es) == DiskStep::SyncRegistry || make_asked(es) == DiskStep::RemovePending,
    ensures
        make_asked(es.push(DiskEvent::Failed)) == DiskStep::Finish(DiskOutcome::Failed),
{
    make_lemma_run(es);
    lemma_failed_creations_end(make_reached(es), make_asked(es));
    make_lemma_push(es, DiskEvent::Failed);
}

/// A move of the machine.
#[verifier::opaque]
spec fn grow_moved(t: Growing, e: DiskEvent) -> (Growing, DiskStep) {
    grow_after(t, e)
}

/// What is reached after these answers.
#[verifier::opaque]
pub open spec fn grow_reached(g: Growth, es: Seq<DiskEvent>) -> Growing
    decreases es.len(),
{
    if es.len() == 0 {
        (Growing { at: GrowAt::Start, growth: g, applied: false })
    } else {
        grow_after(grow_reached(g, es.drop_last()), es.last()).0
    }
}

/// What is asked for after these answers.
#[verifier::opaque]
pub open spec fn grow_asked(g: Growth, es: Seq<DiskEvent>) -> DiskStep
    recommends
        es.len() > 0,
{
    grow_after(grow_reached(g, es.drop_last()), es.last()).1
}

proof fn grow_lemma_push(g: Growth, es: Seq<DiskEvent>, e: DiskEvent)
    ensures
        grow_reached(g, es.push(e)) == grow_moved(grow_reached(g, es), e).0,
        grow_asked(g, es.push(e)) == grow_moved(grow_reached(g, es), e).1,
{
    reveal(grow_reached);
    reveal(grow_asked);
    reveal(grow_moved);
    assert(es.push(e).drop_last() =~= es);
}

proof fn grow_lemma_fresh(g: Growth)
    ensures
        grow_reached(g, Seq::empty()) == (Growing { at: GrowAt::Start, growth: g, applied: false }),
{
    reveal(grow_reached);
}

/// What is kept through a run, and the step that was asked for where it stands.
spec fn grow_entered(t: Growing, g: Growth, s: DiskStep) -> bool {
    t.growth == g && match t.at {
        GrowAt::Start => false,
        GrowAt::Locked => s == DiskStep::Lock,
        GrowAt::Stopped => s == DiskStep::Stopped,
        GrowAt::NewSeen => s == DiskStep::LinkedNew,
        GrowAt::NewInspected => s == DiskStep::Inspect,
        GrowAt::OldSeen => s == DiskStep::LinkedOld,
        GrowAt::VolumeSeen => s == DiskStep::OldVolume,
        GrowAt::SizeRead => s == DiskStep::RuntimeSize,
        GrowAt::Resized => s == DiskStep::Resize,
        GrowAt::Synced => s == DiskStep::SyncImage,
        GrowAt::SizeApplied => s == DiskStep::RuntimeSize,
        GrowAt::ReceiptWritten => s == DiskStep::WriteReceipt,
        GrowAt::Inspected => s == DiskStep::Inspect,
        GrowAt::Over => s is Finish,
    }
}

/// What is kept through a run.
spec fn grow_kept(t: Growing, g: Growth) -> bool {
    t.growth == g
}

#[verifier::rlimit(40)]
#[verifier::spinoff_prover]
proof fn grow_lemma_enters(t: Growing, g: Growth, s: DiskStep, e: DiskEvent)
    requires
        grow_kept(t, g),
        t.at == GrowAt::Start || grow_entered(t, g, s),
    ensures
        grow_entered(grow_moved(t, e).0, g, grow_moved(t, e).1),
{
    reveal(grow_moved);
}

proof fn grow_lemma_run(g: Growth, es: Seq<DiskEvent>)
    requires
        es.len() > 0,
    ensures
        grow_entered(grow_reached(g, es), g, grow_asked(g, es)),
    decreases es.len(),
{
    let less = es.drop_last();
    assert(es =~= less.push(es.last()));
    grow_lemma_push(g, less, es.last());
    if less.len() == 0 {
        grow_lemma_fresh(g);
        assert(less =~= Seq::empty());
    } else {
        grow_lemma_run(g, less);
    }
    grow_lemma_enters(grow_reached(g, less), g, grow_asked(g, less), es.last());
}

/// A disk grows under the storage lock with the worker stopped, and only as the same disk, in place, and not to less.
pub proof fn only_the_same_disk_grows(g: Growth)
    ensures
        grow_asked(g, seq![DiskEvent::Begin]) == (DiskStep::Lock),
        grow_asked(g, seq![DiskEvent::Begin].push(DiskEvent::Done)) == (DiskStep::Stopped),
        grow_asked(g, seq![DiskEvent::Begin].push(DiskEvent::Done).push(DiskEvent::Done))
            == (if !g.same_id { DiskStep::Finish(DiskOutcome::Refused(DiskRefusal::NotSameDisk)) } else { if !g.in_place { DiskStep::Finish(DiskOutcome::Refused(DiskRefusal::GrowthMoves)) } else { DiskStep::LinkedNew } }),
{
    let none = Seq::<DiskEvent>::empty();
    assert(none.push(DiskEvent::Begin) =~= seq![DiskEvent::Begin]);
    grow_lemma_fresh(g);
    grow_lemma_push(g, none, DiskEvent::Begin);
    grow_lemma_push(g, seq![DiskEvent::Begin], DiskEvent::Done);
    grow_lemma_push(g, seq![DiskEvent::Begin], DiskEvent::Done);
    grow_lemma_push(g, seq![DiskEvent::Begin].push(DiskEvent::Done), DiskEvent::Done);
    reveal(grow_moved);
}

proof fn lemma_grown_disks_have_their_size_0(t: Growing, g: Growth, size: u64)
    requires
        t.at == GrowAt::NewSeen,
        grow_kept(t, g),
    ensures
        ({
            &&& grow_moved(t, DiskEvent::Done).1 == (DiskStep::Inspect)
            &&& grow_moved(grow_moved(t, DiskEvent::Done).0, DiskEvent::Done).1
                == (DiskStep::Finish(DiskOutcome::Done))
            &&& grow_moved(t, DiskEvent::Failed).1 == (DiskStep::LinkedOld)
        }),
{
    reveal(grow_moved);
}

proof fn lemma_grown_disks_have_their_size_1(t: Growing, g: Growth, size: u64)
    requires
        t.at == GrowAt::OldSeen,
        grow_kept(t, g),
    ensures
        ({
            &&& grow_moved(t, DiskEvent::Done).1 == (DiskStep::OldVolume)
        }),
{
    reveal(grow_moved);
}

proof fn lemma_grown_disks_have_their_size_2(t: Growing, g: Growth, size: u64)
    requires
        t.at == GrowAt::VolumeSeen,
        grow_kept(t, g),
    ensures
        ({
            &&& grow_moved(t, DiskEvent::Done).1 == (DiskStep::RuntimeSize)
            &&& grow_moved(grow_moved(t, DiskEvent::Done).0, DiskEvent::Size(size)).1
                == (if size != g.old_bytes
                    && size != g.new_bytes { DiskStep::Finish(DiskOutcome::Refused(DiskRefusal::UnexpectedSize)) } else { if size < g.new_bytes { DiskStep::Resize } else { DiskStep::SyncImage } })
        }),
{
    reveal(grow_moved);
}

proof fn lemma_grown_disks_have_their_size_3(t: Growing, g: Growth, size: u64)
    requires
        t.at == GrowAt::Resized,
        grow_kept(t, g),
    ensures
        ({
            &&& grow_moved(t, DiskEvent::Done).1 == (DiskStep::SyncImage)
        }),
{
    reveal(grow_moved);
}

proof fn lemma_grown_disks_have_their_size_4(t: Growing, g: Growth, size: u64)
    requires
        t.at == GrowAt::Synced,
        grow_kept(t, g),
    ensures
        ({
            &&& grow_moved(t, DiskEvent::Done).1 == (DiskStep::RuntimeSize)
            &&& grow_moved(grow_moved(t, DiskEvent::Done).0, DiskEvent::Size(size)).1
                == (if size
                    == g.new_bytes { DiskStep::WriteReceipt } else { DiskStep::Finish(DiskOutcome::Refused(DiskRefusal::GrowthNotApplied)) })
        }),
{
    reveal(grow_moved);
}

proof fn lemma_grown_disks_have_their_size_5(t: Growing, g: Growth, size: u64)
    requires
        t.at == GrowAt::ReceiptWritten,
        grow_kept(t, g),
    ensures
        ({
            &&& grow_moved(t, DiskEvent::Done).1 == (DiskStep::Inspect)
            &&& grow_moved(grow_moved(t, DiskEvent::Done).0, DiskEvent::Done).1
                == (DiskStep::Finish(DiskOutcome::Done))
        }),
{
    reveal(grow_moved);
}

/// A disk that has its new size already is only looked at. Any other has its old size, or
/// the new one from a cut growth; it is resized, written out and seen to have the new
/// size before its receipt says so.
pub proof fn grown_disks_have_their_size(g: Growth, es: Seq<DiskEvent>, size: u64)
    requires
        es.len() > 0,
    ensures
        ({
            let s = grow_asked(g, es);
            let t = grow_reached(g, es);
            &&& s == DiskStep::LinkedNew
                ==> grow_asked(g, es.push(DiskEvent::Done)) == (DiskStep::Inspect)
            &&& s == DiskStep::LinkedNew
                ==> grow_asked(g, es.push(DiskEvent::Done).push(DiskEvent::Done))
                    == (DiskStep::Finish(DiskOutcome::Done))
            &&& s == DiskStep::LinkedNew
                ==> grow_asked(g, es.push(DiskEvent::Failed)) == (DiskStep::LinkedOld)
            &&& s == DiskStep::LinkedOld
                ==> grow_asked(g, es.push(DiskEvent::Done)) == (DiskStep::OldVolume)
            &&& s == DiskStep::OldVolume
                ==> grow_asked(g, es.push(DiskEvent::Done)) == (DiskStep::RuntimeSize)
            &&& s == DiskStep::OldVolume
                ==> grow_asked(g, es.push(DiskEvent::Done).push(DiskEvent::Size(size)))
                    == (if size != g.old_bytes
                        && size != g.new_bytes { DiskStep::Finish(DiskOutcome::Refused(DiskRefusal::UnexpectedSize)) } else { if size < g.new_bytes { DiskStep::Resize } else { DiskStep::SyncImage } })
            &&& s == DiskStep::Resize
                ==> grow_asked(g, es.push(DiskEvent::Done)) == (DiskStep::SyncImage)
            &&& s == DiskStep::SyncImage
                ==> grow_asked(g, es.push(DiskEvent::Done)) == (DiskStep::RuntimeSize)
            &&& s == DiskStep::SyncImage
                ==> grow_asked(g, es.push(DiskEvent::Done).push(DiskEvent::Size(size)))
                    == (if size
                        == g.new_bytes { DiskStep::WriteReceipt } else { DiskStep::Finish(DiskOutcome::Refused(DiskRefusal::GrowthNotApplied)) })
            &&& s == DiskStep::WriteReceipt
                ==> grow_asked(g, es.push(DiskEvent::Done)) == (DiskStep::Inspect)
            &&& s == DiskStep::WriteReceipt
                ==> grow_asked(g, es.push(DiskEvent::Done).push(DiskEvent::Done))
                    == (DiskStep::Finish(DiskOutcome::Done))
        }),
{
    grow_lemma_run(g, es);
    let s = grow_asked(g, es);
    let t = grow_reached(g, es);
    if s == DiskStep::LinkedNew {
        lemma_grown_disks_have_their_size_0(t, g, size);
        grow_lemma_push(g, es, DiskEvent::Done);
        grow_lemma_push(g, es.push(DiskEvent::Done), DiskEvent::Done);
        grow_lemma_push(g, es, DiskEvent::Failed);
    }
    if s == DiskStep::LinkedOld {
        lemma_grown_disks_have_their_size_1(t, g, size);
        grow_lemma_push(g, es, DiskEvent::Done);
    }
    if s == DiskStep::OldVolume {
        lemma_grown_disks_have_their_size_2(t, g, size);
        grow_lemma_push(g, es, DiskEvent::Done);
        grow_lemma_push(g, es.push(DiskEvent::Done), DiskEvent::Size(size));
    }
    if s == DiskStep::Resize {
        lemma_grown_disks_have_their_size_3(t, g, size);
        grow_lemma_push(g, es, DiskEvent::Done);
    }
    if s == DiskStep::SyncImage {
        lemma_grown_disks_have_their_size_4(t, g, size);
        grow_lemma_push(g, es, DiskEvent::Done);
        grow_lemma_push(g, es.push(DiskEvent::Done), DiskEvent::Size(size));
    }
    if s == DiskStep::WriteReceipt {
        lemma_grown_disks_have_their_size_5(t, g, size);
        grow_lemma_push(g, es, DiskEvent::Done);
        grow_lemma_push(g, es.push(DiskEvent::Done), DiskEvent::Done);
    }
}

#[verifier::rlimit(40)]
#[verifier::spinoff_prover]
proof fn lemma_failed_growths_end(t: Growing, g: Growth, s: DiskStep)
    requires
        grow_entered(t, g, s),
        s == DiskStep::Lock || s == DiskStep::Stopped || s == DiskStep::Inspect || s
            == DiskStep::LinkedOld || s == DiskStep::OldVolume || s == DiskStep::RuntimeSize || s
                == DiskStep::Resize || s == DiskStep::SyncImage || s == DiskStep::WriteReceipt,
    ensures
        grow_moved(t, DiskEvent::Failed).1 == DiskStep::Finish(DiskOutcome::Failed),
{
    reveal(grow_moved);
}

/// A growth ends at a step that fails.
pub proof fn failed_growths_end(g: Growth, es: Seq<DiskEvent>)
    requires
        es.len() > 0,
        grow_asked(g, es) == DiskStep::Lock || grow_asked(g, es)
            == DiskStep::Stopped || grow_asked(g, es) == DiskStep::Inspect || grow_asked(g, es)
                == DiskStep::LinkedOld || grow_asked(g, es)
                    == DiskStep::OldVolume || grow_asked(g, es)
                        == DiskStep::RuntimeSize || grow_asked(g, es)
                            == DiskStep::Resize || grow_asked(g, es)
                                == DiskStep::SyncImage || grow_asked(g, es)
                                    == DiskStep::WriteReceipt,
    ensures
        grow_asked(g, es.push(DiskEvent::Failed)) == DiskStep::Finish(DiskOutcome::Failed),
{
    grow_lemma_run(g, es);
    lemma_failed_growths_end(grow_reached(g, es), g, grow_asked(g, es));
    grow_lemma_push(g, es, DiskEvent::Failed);
}

/// A move of the machine.
#[verifier::opaque]
spec fn commit_moved(t: Committing, e: DiskEvent) -> (Committing, DiskStep) {
    commit_after(t, e)
}

/// What is reached after these answers.
#[verifier::opaque]
pub open spec fn commit_reached(same_id: bool, same_size: bool, es: Seq<DiskEvent>) -> Committing
    decreases es.len(),
{
    if es.len() == 0 {
        (Committing { at: CommitAt::Start, same_id, same_size, backed: false })
    } else {
        commit_after(commit_reached(same_id, same_size, es.drop_last()), es.last()).0
    }
}

/// What is asked for after these answers.
#[verifier::opaque]
pub open spec fn commit_asked(same_id: bool, same_size: bool, es: Seq<DiskEvent>) -> DiskStep
    recommends
        es.len() > 0,
{
    commit_after(commit_reached(same_id, same_size, es.drop_last()), es.last()).1
}

proof fn commit_lemma_push(same_id: bool, same_size: bool, es: Seq<DiskEvent>, e: DiskEvent)
    ensures
        commit_reached(same_id, same_size, es.push(e))
            == commit_moved(commit_reached(same_id, same_size, es), e).0,
        commit_asked(same_id, same_size, es.push(e))
            == commit_moved(commit_reached(same_id, same_size, es), e).1,
{
    reveal(commit_reached);
    reveal(commit_asked);
    reveal(commit_moved);
    assert(es.push(e).drop_last() =~= es);
}

proof fn commit_lemma_fresh(same_id: bool, same_size: bool)
    ensures
        commit_reached(same_id, same_size, Seq::empty())
            == (Committing { at: CommitAt::Start, same_id, same_size, backed: false }),
{
    reveal(commit_reached);
}

/// What is kept through a run, and the step that was asked for where it stands.
spec fn commit_entered(t: Committing, same_id: bool, same_size: bool, s: DiskStep) -> bool {
    t.same_id == same_id && t.same_size == same_size && match t.at {
        CommitAt::Start => false,
        CommitAt::Locked => s == DiskStep::Lock,
        CommitAt::Stopped => s == DiskStep::Stopped,
        CommitAt::OldBacked => s == DiskStep::OldBackingValid,
        CommitAt::NewBacked => s == DiskStep::BackingValid,
        CommitAt::NewLinked => s == DiskStep::LinkedToNew,
        CommitAt::OldLinked => s == DiskStep::LinkedToOld,
        CommitAt::PendingSeen => s == DiskStep::PendingLinkExists,
        CommitAt::Renamed => s == DiskStep::RenameLink,
        CommitAt::Synced => s == DiskStep::SyncRegistry,
        CommitAt::PendingReady => s == DiskStep::VerifyPendingLink || s
            == DiskStep::InstallPendingLink,
        CommitAt::Over => s is Finish,
    }
}

/// What is kept through a run.
spec fn commit_kept(t: Committing, same_id: bool, same_size: bool) -> bool {
    t.same_id == same_id && t.same_size == same_size
}

#[verifier::rlimit(40)]
#[verifier::spinoff_prover]
proof fn commit_lemma_enters(t: Committing, same_id: bool, same_size: bool, s: DiskStep,
    e: DiskEvent)
    requires
        commit_kept(t, same_id, same_size),
        t.at == CommitAt::Start || commit_entered(t, same_id, same_size, s),
    ensures
        commit_entered(commit_moved(t, e).0, same_id, same_size, commit_moved(t, e).1),
{
    reveal(commit_moved);
}

proof fn commit_lemma_run(same_id: bool, same_size: bool, es: Seq<DiskEvent>)
    requires
        es.len() > 0,
    ensures
        commit_entered(commit_reached(same_id, same_size, es), same_id, same_size,
            commit_asked(same_id, same_size, es)),
    decreases es.len(),
{
    let less = es.drop_last();
    assert(es =~= less.push(es.last()));
    commit_lemma_push(same_id, same_size, less, es.last());
    if less.len() == 0 {
        commit_lemma_fresh(same_id, same_size);
        assert(less =~= Seq::empty());
    } else {
        commit_lemma_run(same_id, same_size, less);
    }
    commit_lemma_enters(commit_reached(same_id, same_size, less), same_id, same_size,
        commit_asked(same_id, same_size, less), es.last());
}

/// A disk is moved under the storage lock with the worker stopped, and only as the same disk in its size.
pub proof fn moves_keep_the_disk(same_id: bool, same_size: bool)
    ensures
        commit_asked(same_id, same_size, seq![DiskEvent::Begin]) == (DiskStep::Lock),
        commit_asked(same_id, same_size, seq![DiskEvent::Begin].push(DiskEvent::Done))
            == (DiskStep::Stopped),
        commit_asked(same_id, same_size,
            seq![DiskEvent::Begin].push(DiskEvent::Done).push(DiskEvent::Done))
                == (if !same_id { DiskStep::Finish(DiskOutcome::Refused(DiskRefusal::NotSameDisk)) } else { if !same_size { DiskStep::Finish(DiskOutcome::Refused(DiskRefusal::CommitResizes)) } else { DiskStep::OldBackingValid } }),
{
    let none = Seq::<DiskEvent>::empty();
    assert(none.push(DiskEvent::Begin) =~= seq![DiskEvent::Begin]);
    commit_lemma_fresh(same_id, same_size);
    commit_lemma_push(same_id, same_size, none, DiskEvent::Begin);
    commit_lemma_push(same_id, same_size, seq![DiskEvent::Begin], DiskEvent::Done);
    commit_lemma_push(same_id, same_size, seq![DiskEvent::Begin], DiskEvent::Done);
    commit_lemma_push(same_id, same_size, seq![DiskEvent::Begin].push(DiskEvent::Done),
        DiskEvent::Done);
    reveal(commit_moved);
}

proof fn lemma_moved_disks_are_switched_at_once_0(t: Committing, same_id: bool, same_size: bool,
    here: bool)
    requires
        t.at == CommitAt::OldBacked,
        commit_kept(t, same_id, same_size),
    ensures
        ({
            &&& commit_moved(t, DiskEvent::Done).1 == (DiskStep::BackingValid)
        }),
{
    reveal(commit_moved);
}

proof fn lemma_moved_disks_are_switched_at_once_1(t: Committing, same_id: bool, same_size: bool,
    here: bool)
    requires
        t.at == CommitAt::NewBacked,
        commit_kept(t, same_id, same_size),
    ensures
        ({
            &&& commit_moved(t, DiskEvent::Done).1 == (DiskStep::LinkedToNew)
        }),
{
    reveal(commit_moved);
}

proof fn lemma_moved_disks_are_switched_at_once_2(t: Committing, same_id: bool, same_size: bool,
    here: bool)
    requires
        t.at == CommitAt::NewLinked,
        commit_kept(t, same_id, same_size),
    ensures
        ({
            &&& commit_moved(t, DiskEvent::Done).1 == (DiskStep::Finish(DiskOutcome::Done))
            &&& commit_moved(t, DiskEvent::Failed).1 == (DiskStep::LinkedToOld)
        }),
{
    reveal(commit_moved);
}

proof fn lemma_moved_disks_are_switched_at_once_3(t: Committing, same_id: bool, same_size: bool,
    here: bool)
    requires
        t.at == CommitAt::OldLinked,
        commit_kept(t, same_id, same_size),
    ensures
        ({
            &&& commit_moved(t, DiskEvent::Done).1 == (DiskStep::PendingLinkExists)
        }),
{
    reveal(commit_moved);
}

proof fn lemma_moved_disks_are_switched_at_once_4(t: Committing, same_id: bool, same_size: bool,
    here: bool)
    requires
        t.at == CommitAt::PendingSeen,
        commit_kept(t, same_id, same_size),
    ensures
        ({
            &&& commit_moved(t, DiskEvent::Answer(here)).1
                == (if here { DiskStep::VerifyPendingLink } else { DiskStep::InstallPendingLink })
        }),
{
    reveal(commit_moved);
}

proof fn lemma_moved_disks_are_switched_at_once_5(t: Committing, same_id: bool, same_size: bool,
    here: bool)
    requires
        t.at == CommitAt::PendingReady,
        commit_kept(t, same_id, same_size),
    ensures
        ({
            &&& commit_moved(t, DiskEvent::Done).1 == (DiskStep::RenameLink)
        }),
{
    reveal(commit_moved);
}

proof fn lemma_moved_disks_are_switched_at_once_6(t: Committing, same_id: bool, same_size: bool,
    here: bool)
    requires
        t.at == CommitAt::Renamed,
        commit_kept(t, same_id, same_size),
    ensures
        ({
            &&& commit_moved(t, DiskEvent::Done).1 == (DiskStep::SyncRegistry)
        }),
{
    reveal(commit_moved);
}

proof fn lemma_moved_disks_are_switched_at_once_7(t: Committing, same_id: bool, same_size: bool,
    here: bool)
    requires
        t.at == CommitAt::Synced,
        commit_kept(t, same_id, same_size),
    ensures
        ({
            &&& commit_moved(t, DiskEvent::Done).1 == (DiskStep::Finish(DiskOutcome::Done))
        }),
{
    reveal(commit_moved);
}

/// Lima uses a disk's new place only after the files at both places were checked; the
/// registration is made beside the old one and takes its place in one step.
pub proof fn moved_disks_are_switched_at_once(same_id: bool, same_size: bool, es: Seq<DiskEvent>,
    here: bool)
    requires
        es.len() > 0,
    ensures
        ({
            let s = commit_asked(same_id, same_size, es);
            let t = commit_reached(same_id, same_size, es);
            &&& s == DiskStep::OldBackingValid
                ==> commit_asked(same_id, same_size, es.push(DiskEvent::Done))
                    == (DiskStep::BackingValid)
            &&& s == DiskStep::BackingValid
                ==> commit_asked(same_id, same_size, es.push(DiskEvent::Done))
                    == (DiskStep::LinkedToNew)
            &&& s == DiskStep::LinkedToNew
                ==> commit_asked(same_id, same_size, es.push(DiskEvent::Done))
                    == (DiskStep::Finish(DiskOutcome::Done))
            &&& s == DiskStep::LinkedToNew
                ==> commit_asked(same_id, same_size, es.push(DiskEvent::Failed))
                    == (DiskStep::LinkedToOld)
            &&& s == DiskStep::LinkedToOld
                ==> commit_asked(same_id, same_size, es.push(DiskEvent::Done))
                    == (DiskStep::PendingLinkExists)
            &&& s == DiskStep::PendingLinkExists
                ==> commit_asked(same_id, same_size, es.push(DiskEvent::Answer(here)))
                    == (if here { DiskStep::VerifyPendingLink } else { DiskStep::InstallPendingLink })
            &&& (s == DiskStep::VerifyPendingLink || s == DiskStep::InstallPendingLink)
                ==> commit_asked(same_id, same_size, es.push(DiskEvent::Done))
                    == (DiskStep::RenameLink)
            &&& s == DiskStep::RenameLink
                ==> commit_asked(same_id, same_size, es.push(DiskEvent::Done))
                    == (DiskStep::SyncRegistry)
            &&& s == DiskStep::SyncRegistry
                ==> commit_asked(same_id, same_size, es.push(DiskEvent::Done))
                    == (DiskStep::Finish(DiskOutcome::Done))
        }),
{
    commit_lemma_run(same_id, same_size, es);
    let s = commit_asked(same_id, same_size, es);
    let t = commit_reached(same_id, same_size, es);
    if s == DiskStep::OldBackingValid {
        lemma_moved_disks_are_switched_at_once_0(t, same_id, same_size, here);
        commit_lemma_push(same_id, same_size, es, DiskEvent::Done);
    }
    if s == DiskStep::BackingValid {
        lemma_moved_disks_are_switched_at_once_1(t, same_id, same_size, here);
        commit_lemma_push(same_id, same_size, es, DiskEvent::Done);
    }
    if s == DiskStep::LinkedToNew {
        lemma_moved_disks_are_switched_at_once_2(t, same_id, same_size, here);
        commit_lemma_push(same_id, same_size, es, DiskEvent::Done);
        commit_lemma_push(same_id, same_size, es, DiskEvent::Failed);
    }
    if s == DiskStep::LinkedToOld {
        lemma_moved_disks_are_switched_at_once_3(t, same_id, same_size, here);
        commit_lemma_push(same_id, same_size, es, DiskEvent::Done);
    }
    if s == DiskStep::PendingLinkExists {
        lemma_moved_disks_are_switched_at_once_4(t, same_id, same_size, here);
        commit_lemma_push(same_id, same_size, es, DiskEvent::Answer(here));
    }
    if s == DiskStep::VerifyPendingLink || s == DiskStep::InstallPendingLink {
        lemma_moved_disks_are_switched_at_once_5(t, same_id, same_size, here);
        commit_lemma_push(same_id, same_size, es, DiskEvent::Done);
    }
    if s == DiskStep::RenameLink {
        lemma_moved_disks_are_switched_at_once_6(t, same_id, same_size, here);
        commit_lemma_push(same_id, same_size, es, DiskEvent::Done);
    }
    if s == DiskStep::SyncRegistry {
        lemma_moved_disks_are_switched_at_once_7(t, same_id, same_size, here);
        commit_lemma_push(same_id, same_size, es, DiskEvent::Done);
    }
}

#[verifier::rlimit(40)]
#[verifier::spinoff_prover]
proof fn lemma_failed_switches_end(t: Committing, same_id: bool, same_size: bool, s: DiskStep)
    requires
        commit_entered(t, same_id, same_size, s),
        s == DiskStep::Lock || s == DiskStep::Stopped || s == DiskStep::OldBackingValid || s
            == DiskStep::BackingValid || s == DiskStep::LinkedToOld || s
                == DiskStep::PendingLinkExists || s == DiskStep::VerifyPendingLink || s
                    == DiskStep::InstallPendingLink || s == DiskStep::RenameLink || s
                        == DiskStep::SyncRegistry,
    ensures
        commit_moved(t, DiskEvent::Failed).1 == DiskStep::Finish(DiskOutcome::Failed),
{
    reveal(commit_moved);
}

/// A move ends at a step that fails, with the disk where it was.
pub proof fn failed_switches_end(same_id: bool, same_size: bool, es: Seq<DiskEvent>)
    requires
        es.len() > 0,
        commit_asked(same_id, same_size, es)
            == DiskStep::Lock || commit_asked(same_id, same_size, es)
                == DiskStep::Stopped || commit_asked(same_id, same_size, es)
                    == DiskStep::OldBackingValid || commit_asked(same_id, same_size, es)
                        == DiskStep::BackingValid || commit_asked(same_id, same_size, es)
                            == DiskStep::LinkedToOld || commit_asked(same_id, same_size, es)
                                == DiskStep::PendingLinkExists || commit_asked(same_id, same_size,
                                    es) == DiskStep::VerifyPendingLink || commit_asked(same_id, same_size, es) == DiskStep::InstallPendingLink || commit_asked(same_id, same_size, es) == DiskStep::RenameLink || commit_asked(same_id, same_size, es) == DiskStep::SyncRegistry,
    ensures
        commit_asked(same_id, same_size, es.push(DiskEvent::Failed))
            == DiskStep::Finish(DiskOutcome::Failed),
{
    commit_lemma_run(same_id, same_size, es);
    lemma_failed_switches_end(commit_reached(same_id, same_size, es), same_id, same_size,
        commit_asked(same_id, same_size, es));
    commit_lemma_push(same_id, same_size, es, DiskEvent::Failed);
}

/// A move of the machine.
#[verifier::opaque]
spec fn unmake_moved(t: Removing, e: DiskEvent) -> (Removing, DiskStep) {
    remove_after(t, e)
}

/// What is reached after these answers.
#[verifier::opaque]
pub open spec fn unmake_reached(es: Seq<DiskEvent>) -> Removing
    decreases es.len(),
{
    if es.len() == 0 {
        (Removing { at: RemoveAt::Start, anchored: false, owned: false })
    } else {
        remove_after(unmake_reached(es.drop_last()), es.last()).0
    }
}

/// What is asked for after these answers.
#[verifier::opaque]
pub open spec fn unmake_asked(es: Seq<DiskEvent>) -> DiskStep
    recommends
        es.len() > 0,
{
    remove_after(unmake_reached(es.drop_last()), es.last()).1
}

proof fn unmake_lemma_push(es: Seq<DiskEvent>, e: DiskEvent)
    ensures
        unmake_reached(es.push(e)) == unmake_moved(unmake_reached(es), e).0,
        unmake_asked(es.push(e)) == unmake_moved(unmake_reached(es), e).1,
{
    reveal(unmake_reached);
    reveal(unmake_asked);
    reveal(unmake_moved);
    assert(es.push(e).drop_last() =~= es);
}

proof fn unmake_lemma_fresh()
    ensures
        unmake_reached(Seq::empty())
            == (Removing { at: RemoveAt::Start, anchored: false, owned: false }),
{
    reveal(unmake_reached);
}

/// What is kept through a run, and the step that was asked for where it stands.
spec fn unmake_entered(t: Removing, s: DiskStep) -> bool {
    true && match t.at {
        RemoveAt::Start => false,
        RemoveAt::Locked => s == DiskStep::Lock,
        RemoveAt::Stopped => s == DiskStep::Stopped,
        RemoveAt::Anchored => s == DiskStep::AncestorVolume,
        RemoveAt::DirectorySeen => s == DiskStep::DirectoryExists,
        RemoveAt::DirectoryPrivate => s == DiskStep::PrivateDirectory,
        RemoveAt::FilesSeen => s == DiskStep::OnlyDiskFiles,
        RemoveAt::ImageSeen => s == DiskStep::ImageExists,
        RemoveAt::ImageReceipt => s == DiskStep::VerifyReceipt,
        RemoveAt::ImageVolume => s == DiskStep::ImageVolume,
        RemoveAt::LinkSeen => s == DiskStep::LinkExists,
        RemoveAt::LinkVerified => s == DiskStep::VerifyLink,
        RemoveAt::RuntimeDeleted => s == DiskStep::DeleteRuntimeDisk,
        RemoveAt::LinkGone => s == DiskStep::LinkExists,
        RemoveAt::ImageRemoved => s == DiskStep::RemoveImage,
        RemoveAt::ImageSynced => s == DiskStep::SyncDirectory,
        RemoveAt::ReceiptSeen => s == DiskStep::ReceiptExists,
        RemoveAt::ReceiptVerified => s == DiskStep::VerifyReceipt,
        RemoveAt::ReceiptRemoved => s == DiskStep::RemoveReceipt,
        RemoveAt::ReceiptSynced => s == DiskStep::SyncDirectory,
        RemoveAt::DirectoryRemoved => s == DiskStep::RemoveDirectory,
        RemoveAt::TargetSeen => s == DiskStep::LinkTarget,
        RemoveAt::LinkRemoved => s == DiskStep::RemoveLink,
        RemoveAt::Synced => s == DiskStep::SyncRegistry,
        RemoveAt::Over => s is Finish,
    }
}

/// What is kept through a run.
spec fn unmake_kept(t: Removing) -> bool {
    true
}

#[verifier::rlimit(60)]
#[verifier::spinoff_prover]
proof fn unmake_lemma_enters(t: Removing, s: DiskStep, e: DiskEvent)
    requires
        unmake_kept(t),
        t.at == RemoveAt::Start || unmake_entered(t, s),
    ensures
        unmake_entered(unmake_moved(t, e).0, unmake_moved(t, e).1),
{
    reveal(unmake_moved);
}

proof fn unmake_lemma_run(es: Seq<DiskEvent>)
    requires
        es.len() > 0,
    ensures
        unmake_entered(unmake_reached(es), unmake_asked(es)),
    decreases es.len(),
{
    let less = es.drop_last();
    assert(es =~= less.push(es.last()));
    unmake_lemma_push(less, es.last());
    if less.len() == 0 {
        unmake_lemma_fresh();
        assert(less =~= Seq::empty());
    } else {
        unmake_lemma_run(less);
    }
    unmake_lemma_enters(unmake_reached(less), unmake_asked(less), es.last());
}

/// A disk is removed under the storage lock, with the worker stopped and its own volume there.
pub proof fn removals_begin_on_the_volume()
    ensures
        unmake_asked(seq![DiskEvent::Begin]) == (DiskStep::Lock),
        unmake_asked(seq![DiskEvent::Begin].push(DiskEvent::Done)) == (DiskStep::Stopped),
        unmake_asked(seq![DiskEvent::Begin].push(DiskEvent::Done).push(DiskEvent::Done))
            == (DiskStep::AncestorVolume),
        unmake_asked(seq![DiskEvent::Begin].push(DiskEvent::Done).push(DiskEvent::Done).push(DiskEvent::Done)) == (DiskStep::DirectoryExists),
{
    let none = Seq::<DiskEvent>::empty();
    assert(none.push(DiskEvent::Begin) =~= seq![DiskEvent::Begin]);
    unmake_lemma_fresh();
    unmake_lemma_push(none, DiskEvent::Begin);
    unmake_lemma_push(seq![DiskEvent::Begin], DiskEvent::Done);
    unmake_lemma_push(seq![DiskEvent::Begin], DiskEvent::Done);
    unmake_lemma_push(seq![DiskEvent::Begin].push(DiskEvent::Done), DiskEvent::Done);
    unmake_lemma_push(seq![DiskEvent::Begin], DiskEvent::Done);
    unmake_lemma_push(seq![DiskEvent::Begin].push(DiskEvent::Done), DiskEvent::Done);
    unmake_lemma_push(seq![DiskEvent::Begin].push(DiskEvent::Done).push(DiskEvent::Done),
        DiskEvent::Done);
    reveal(unmake_moved);
}

proof fn lemma_images_go_as_the_disks_own_0(t: Removing, here: bool)
    requires
        t.at == RemoveAt::DirectorySeen,
        unmake_kept(t),
    ensures
        ({
            &&& unmake_moved(t, DiskEvent::Answer(here)).1
                == (if here { DiskStep::PrivateDirectory } else { DiskStep::LinkTarget })
        }),
{
    reveal(unmake_moved);
}

proof fn lemma_images_go_as_the_disks_own_1(t: Removing, here: bool)
    requires
        t.at == RemoveAt::DirectoryPrivate,
        unmake_kept(t),
    ensures
        ({
            &&& unmake_moved(t, DiskEvent::Done).1 == (DiskStep::OnlyDiskFiles)
        }),
{
    reveal(unmake_moved);
}

proof fn lemma_images_go_as_the_disks_own_2(t: Removing, here: bool)
    requires
        t.at == RemoveAt::FilesSeen,
        unmake_kept(t),
    ensures
        ({
            &&& unmake_moved(t, DiskEvent::Answer(here)).1
                == (if here { DiskStep::ImageExists } else { DiskStep::Finish(DiskOutcome::Refused(DiskRefusal::UnexpectedManagedFiles)) })
        }),
{
    reveal(unmake_moved);
}

proof fn lemma_images_go_as_the_disks_own_3(t: Removing, here: bool)
    requires
        t.at == RemoveAt::ImageSeen,
        unmake_kept(t),
    ensures
        ({
            &&& unmake_moved(t, DiskEvent::Answer(here)).1
                == (if here { DiskStep::VerifyReceipt } else { DiskStep::ReceiptExists })
            &&& unmake_moved(unmake_moved(t, DiskEvent::Answer(true)).0, DiskEvent::Done).1
                == (DiskStep::ImageVolume)
        }),
{
    reveal(unmake_moved);
}

proof fn lemma_images_go_as_the_disks_own_4(t: Removing, here: bool)
    requires
        t.at == RemoveAt::ImageVolume,
        unmake_kept(t),
    ensures
        ({
            &&& unmake_moved(t, DiskEvent::Done).1 == (DiskStep::LinkExists)
            &&& unmake_moved(unmake_moved(t, DiskEvent::Done).0, DiskEvent::Answer(here)).1
                == (if here { DiskStep::VerifyLink } else { DiskStep::RemoveImage })
        }),
{
    reveal(unmake_moved);
}

proof fn lemma_images_go_as_the_disks_own_5(t: Removing, here: bool)
    requires
        t.at == RemoveAt::LinkVerified,
        unmake_kept(t),
    ensures
        ({
            &&& unmake_moved(t, DiskEvent::Done).1 == (DiskStep::DeleteRuntimeDisk)
        }),
{
    reveal(unmake_moved);
}

proof fn lemma_images_go_as_the_disks_own_6(t: Removing, here: bool)
    requires
        t.at == RemoveAt::RuntimeDeleted,
        unmake_kept(t),
    ensures
        ({
            &&& unmake_moved(t, DiskEvent::Done).1 == (DiskStep::LinkExists)
            &&& unmake_moved(unmake_moved(t, DiskEvent::Done).0, DiskEvent::Answer(here)).1
                == (if here { DiskStep::Finish(DiskOutcome::Refused(DiskRefusal::StillReferenced)) } else { DiskStep::RemoveImage })
        }),
{
    reveal(unmake_moved);
}

proof fn lemma_images_go_as_the_disks_own_7(t: Removing, here: bool)
    requires
        t.at == RemoveAt::ImageRemoved,
        unmake_kept(t),
    ensures
        ({
            &&& unmake_moved(t, DiskEvent::Done).1 == (DiskStep::SyncDirectory)
            &&& unmake_moved(unmake_moved(t, DiskEvent::Done).0, DiskEvent::Done).1
                == (DiskStep::ReceiptExists)
        }),
{
    reveal(unmake_moved);
}

proof fn lemma_images_go_as_the_disks_own_8(t: Removing, here: bool)
    requires
        t.at == RemoveAt::ReceiptSeen,
        unmake_kept(t),
    ensures
        ({
            &&& unmake_moved(t, DiskEvent::Answer(here)).1
                == (if here { DiskStep::VerifyReceipt } else { DiskStep::RemoveDirectory })
            &&& unmake_moved(unmake_moved(t, DiskEvent::Answer(true)).0, DiskEvent::Done).1
                == (DiskStep::RemoveReceipt)
        }),
{
    reveal(unmake_moved);
}

proof fn lemma_images_go_as_the_disks_own_9(t: Removing, here: bool)
    requires
        t.at == RemoveAt::ReceiptRemoved,
        unmake_kept(t),
    ensures
        ({
            &&& unmake_moved(t, DiskEvent::Done).1 == (DiskStep::SyncDirectory)
            &&& unmake_moved(unmake_moved(t, DiskEvent::Done).0, DiskEvent::Done).1
                == (DiskStep::RemoveDirectory)
        }),
{
    reveal(unmake_moved);
}

proof fn lemma_images_go_as_the_disks_own_10(t: Removing, here: bool)
    requires
        t.at == RemoveAt::DirectoryRemoved,
        unmake_kept(t),
    ensures
        ({
            &&& unmake_moved(t, DiskEvent::Done).1 == (DiskStep::LinkTarget)
        }),
{
    reveal(unmake_moved);
}

proof fn lemma_images_go_as_the_disks_own_11(t: Removing, here: bool)
    requires
        t.at == RemoveAt::TargetSeen,
        unmake_kept(t),
    ensures
        ({
            &&& unmake_moved(t, DiskEvent::Target(LinkTarget::Absent)).1
                == (DiskStep::Finish(DiskOutcome::Done))
            &&& unmake_moved(t, DiskEvent::Target(LinkTarget::Elsewhere)).1
                == (DiskStep::Finish(DiskOutcome::Refused(DiskRefusal::RegistrationChanged)))
            &&& unmake_moved(t, DiskEvent::Target(LinkTarget::Here)).1 == (DiskStep::RemoveLink)
        }),
{
    reveal(unmake_moved);
}

proof fn lemma_images_go_as_the_disks_own_12(t: Removing, here: bool)
    requires
        t.at == RemoveAt::LinkRemoved,
        unmake_kept(t),
    ensures
        ({
            &&& unmake_moved(t, DiskEvent::Done).1 == (DiskStep::SyncRegistry)
        }),
{
    reveal(unmake_moved);
}

proof fn lemma_images_go_as_the_disks_own_13(t: Removing, here: bool)
    requires
        t.at == RemoveAt::Synced,
        unmake_kept(t),
    ensures
        ({
            &&& unmake_moved(t, DiskEvent::Done).1 == (DiskStep::Finish(DiskOutcome::Done))
        }),
{
    reveal(unmake_moved);
}

/// An image goes only from a private directory that holds nothing but the disk's files,
/// where its receipt is this disk's, on its volume, and after Lima let go of it; the
/// receipt goes after the image, and the registration last and only where it is this
/// disk's.
pub proof fn images_go_as_the_disks_own(es: Seq<DiskEvent>, here: bool)
    requires
        es.len() > 0,
    ensures
        ({
            let s = unmake_asked(es);
            let t = unmake_reached(es);
            &&& s == DiskStep::DirectoryExists
                ==> unmake_asked(es.push(DiskEvent::Answer(here)))
                    == (if here { DiskStep::PrivateDirectory } else { DiskStep::LinkTarget })
            &&& s == DiskStep::PrivateDirectory
                ==> unmake_asked(es.push(DiskEvent::Done)) == (DiskStep::OnlyDiskFiles)
            &&& s == DiskStep::OnlyDiskFiles
                ==> unmake_asked(es.push(DiskEvent::Answer(here)))
                    == (if here { DiskStep::ImageExists } else { DiskStep::Finish(DiskOutcome::Refused(DiskRefusal::UnexpectedManagedFiles)) })
            &&& s == DiskStep::ImageExists
                ==> unmake_asked(es.push(DiskEvent::Answer(here)))
                    == (if here { DiskStep::VerifyReceipt } else { DiskStep::ReceiptExists })
            &&& s == DiskStep::ImageExists
                ==> unmake_asked(es.push(DiskEvent::Answer(true)).push(DiskEvent::Done))
                    == (DiskStep::ImageVolume)
            &&& s == DiskStep::ImageVolume
                ==> unmake_asked(es.push(DiskEvent::Done)) == (DiskStep::LinkExists)
            &&& s == DiskStep::ImageVolume
                ==> unmake_asked(es.push(DiskEvent::Done).push(DiskEvent::Answer(here)))
                    == (if here { DiskStep::VerifyLink } else { DiskStep::RemoveImage })
            &&& s == DiskStep::VerifyLink
                ==> unmake_asked(es.push(DiskEvent::Done)) == (DiskStep::DeleteRuntimeDisk)
            &&& s == DiskStep::DeleteRuntimeDisk
                ==> unmake_asked(es.push(DiskEvent::Done)) == (DiskStep::LinkExists)
            &&& s == DiskStep::DeleteRuntimeDisk
                ==> unmake_asked(es.push(DiskEvent::Done).push(DiskEvent::Answer(here)))
                    == (if here { DiskStep::Finish(DiskOutcome::Refused(DiskRefusal::StillReferenced)) } else { DiskStep::RemoveImage })
            &&& s == DiskStep::RemoveImage
                ==> unmake_asked(es.push(DiskEvent::Done)) == (DiskStep::SyncDirectory)
            &&& s == DiskStep::RemoveImage
                ==> unmake_asked(es.push(DiskEvent::Done).push(DiskEvent::Done))
                    == (DiskStep::ReceiptExists)
            &&& s == DiskStep::ReceiptExists
                ==> unmake_asked(es.push(DiskEvent::Answer(here)))
                    == (if here { DiskStep::VerifyReceipt } else { DiskStep::RemoveDirectory })
            &&& s == DiskStep::ReceiptExists
                ==> unmake_asked(es.push(DiskEvent::Answer(true)).push(DiskEvent::Done))
                    == (DiskStep::RemoveReceipt)
            &&& s == DiskStep::RemoveReceipt
                ==> unmake_asked(es.push(DiskEvent::Done)) == (DiskStep::SyncDirectory)
            &&& s == DiskStep::RemoveReceipt
                ==> unmake_asked(es.push(DiskEvent::Done).push(DiskEvent::Done))
                    == (DiskStep::RemoveDirectory)
            &&& s == DiskStep::RemoveDirectory
                ==> unmake_asked(es.push(DiskEvent::Done)) == (DiskStep::LinkTarget)
            &&& s == DiskStep::LinkTarget
                ==> unmake_asked(es.push(DiskEvent::Target(LinkTarget::Absent)))
                    == (DiskStep::Finish(DiskOutcome::Done))
            &&& s == DiskStep::LinkTarget
                ==> unmake_asked(es.push(DiskEvent::Target(LinkTarget::Elsewhere)))
                    == (DiskStep::Finish(DiskOutcome::Refused(DiskRefusal::RegistrationChanged)))
            &&& s == DiskStep::LinkTarget
                ==> unmake_asked(es.push(DiskEvent::Target(LinkTarget::Here)))
                    == (DiskStep::RemoveLink)
            &&& s == DiskStep::RemoveLink
                ==> unmake_asked(es.push(DiskEvent::Done)) == (DiskStep::SyncRegistry)
            &&& s == DiskStep::SyncRegistry
                ==> unmake_asked(es.push(DiskEvent::Done)) == (DiskStep::Finish(DiskOutcome::Done))
        }),
{
    unmake_lemma_run(es);
    let s = unmake_asked(es);
    let t = unmake_reached(es);
    if s == DiskStep::DirectoryExists {
        lemma_images_go_as_the_disks_own_0(t, here);
        unmake_lemma_push(es, DiskEvent::Answer(here));
    }
    if s == DiskStep::PrivateDirectory {
        lemma_images_go_as_the_disks_own_1(t, here);
        unmake_lemma_push(es, DiskEvent::Done);
    }
    if s == DiskStep::OnlyDiskFiles {
        lemma_images_go_as_the_disks_own_2(t, here);
        unmake_lemma_push(es, DiskEvent::Answer(here));
    }
    if s == DiskStep::ImageExists {
        lemma_images_go_as_the_disks_own_3(t, here);
        unmake_lemma_push(es, DiskEvent::Answer(here));
        unmake_lemma_push(es, DiskEvent::Answer(true));
        unmake_lemma_push(es.push(DiskEvent::Answer(true)), DiskEvent::Done);
    }
    if s == DiskStep::ImageVolume {
        lemma_images_go_as_the_disks_own_4(t, here);
        unmake_lemma_push(es, DiskEvent::Done);
        unmake_lemma_push(es.push(DiskEvent::Done), DiskEvent::Answer(here));
    }
    if s == DiskStep::VerifyLink {
        lemma_images_go_as_the_disks_own_5(t, here);
        unmake_lemma_push(es, DiskEvent::Done);
    }
    if s == DiskStep::DeleteRuntimeDisk {
        lemma_images_go_as_the_disks_own_6(t, here);
        unmake_lemma_push(es, DiskEvent::Done);
        unmake_lemma_push(es.push(DiskEvent::Done), DiskEvent::Answer(here));
    }
    if s == DiskStep::RemoveImage {
        lemma_images_go_as_the_disks_own_7(t, here);
        unmake_lemma_push(es, DiskEvent::Done);
        unmake_lemma_push(es.push(DiskEvent::Done), DiskEvent::Done);
    }
    if s == DiskStep::ReceiptExists {
        lemma_images_go_as_the_disks_own_8(t, here);
        unmake_lemma_push(es, DiskEvent::Answer(here));
        unmake_lemma_push(es, DiskEvent::Answer(true));
        unmake_lemma_push(es.push(DiskEvent::Answer(true)), DiskEvent::Done);
    }
    if s == DiskStep::RemoveReceipt {
        lemma_images_go_as_the_disks_own_9(t, here);
        unmake_lemma_push(es, DiskEvent::Done);
        unmake_lemma_push(es.push(DiskEvent::Done), DiskEvent::Done);
    }
    if s == DiskStep::RemoveDirectory {
        lemma_images_go_as_the_disks_own_10(t, here);
        unmake_lemma_push(es, DiskEvent::Done);
    }
    if s == DiskStep::LinkTarget {
        lemma_images_go_as_the_disks_own_11(t, here);
        unmake_lemma_push(es, DiskEvent::Target(LinkTarget::Absent));
        unmake_lemma_push(es, DiskEvent::Target(LinkTarget::Elsewhere));
        unmake_lemma_push(es, DiskEvent::Target(LinkTarget::Here));
    }
    if s == DiskStep::RemoveLink {
        lemma_images_go_as_the_disks_own_12(t, here);
        unmake_lemma_push(es, DiskEvent::Done);
    }
    if s == DiskStep::SyncRegistry {
        lemma_images_go_as_the_disks_own_13(t, here);
        unmake_lemma_push(es, DiskEvent::Done);
    }
}

#[verifier::rlimit(60)]
#[verifier::spinoff_prover]
proof fn lemma_failed_removals_end(t: Removing, s: DiskStep)
    requires
        unmake_entered(t, s),
        s == DiskStep::Lock || s == DiskStep::Stopped || s == DiskStep::AncestorVolume || s
            == DiskStep::PrivateDirectory || s == DiskStep::OnlyDiskFiles || s
                == DiskStep::VerifyReceipt || s == DiskStep::ImageVolume || s
                    == DiskStep::VerifyLink || s == DiskStep::DeleteRuntimeDisk || s
                        == DiskStep::RemoveImage || s == DiskStep::RemoveReceipt || s
                            == DiskStep::RemoveDirectory || s == DiskStep::LinkTarget || s
                                == DiskStep::RemoveLink || s == DiskStep::SyncRegistry,
    ensures
        unmake_moved(t, DiskEvent::Failed).1 == DiskStep::Finish(DiskOutcome::Failed),
{
    reveal(unmake_moved);
}

/// A removal ends at a step that fails.
pub proof fn failed_removals_end(es: Seq<DiskEvent>)
    requires
        es.len() > 0,
        unmake_asked(es) == DiskStep::Lock || unmake_asked(es)
            == DiskStep::Stopped || unmake_asked(es)
                == DiskStep::AncestorVolume || unmake_asked(es)
                    == DiskStep::PrivateDirectory || unmake_asked(es)
                        == DiskStep::OnlyDiskFiles || unmake_asked(es)
                            == DiskStep::VerifyReceipt || unmake_asked(es)
                                == DiskStep::ImageVolume || unmake_asked(es)
                                    == DiskStep::VerifyLink || unmake_asked(es)
                                        == DiskStep::DeleteRuntimeDisk || unmake_asked(es)
                                            == DiskStep::RemoveImage || unmake_asked(es)
                                                == DiskStep::RemoveReceipt || unmake_asked(es)
                                                    == DiskStep::RemoveDirectory || unmake_asked(es) == DiskStep::LinkTarget || unmake_asked(es) == DiskStep::RemoveLink || unmake_asked(es) == DiskStep::SyncRegistry,
    ensures
        unmake_asked(es.push(DiskEvent::Failed)) == DiskStep::Finish(DiskOutcome::Failed),
{
    unmake_lemma_run(es);
    lemma_failed_removals_end(unmake_reached(es), unmake_asked(es));
    unmake_lemma_push(es, DiskEvent::Failed);
}

/// A move of the machine.
#[verifier::opaque]
spec fn drop_moved(t: Discarding, e: DiskEvent) -> (Discarding, DiskStep) {
    discard_after(t, e)
}

/// What is reached after these answers.
#[verifier::opaque]
pub open spec fn drop_reached(es: Seq<DiskEvent>) -> Discarding
    decreases es.len(),
{
    if es.len() == 0 {
        (Discarding { at: DiscardAt::Start, receipt: false, image: false, apart: false,
            owned: false })
    } else {
        discard_after(drop_reached(es.drop_last()), es.last()).0
    }
}

/// What is asked for after these answers.
#[verifier::opaque]
pub open spec fn drop_asked(es: Seq<DiskEvent>) -> DiskStep
    recommends
        es.len() > 0,
{
    discard_after(drop_reached(es.drop_last()), es.last()).1
}

proof fn drop_lemma_push(es: Seq<DiskEvent>, e: DiskEvent)
    ensures
        drop_reached(es.push(e)) == drop_moved(drop_reached(es), e).0,
        drop_asked(es.push(e)) == drop_moved(drop_reached(es), e).1,
{
    reveal(drop_reached);
    reveal(drop_asked);
    reveal(drop_moved);
    assert(es.push(e).drop_last() =~= es);
}

proof fn drop_lemma_fresh()
    ensures
        drop_reached(Seq::empty())
            == (Discarding { at: DiscardAt::Start, receipt: false, image: false, apart: false,
                owned: false }),
{
    reveal(drop_reached);
}

/// What is kept through a run, and the step that was asked for where it stands.
spec fn drop_entered(t: Discarding, s: DiskStep) -> bool {
    true && match t.at {
        DiscardAt::Start => false,
        DiscardAt::Locked => s == DiskStep::Lock,
        DiscardAt::Stopped => s == DiskStep::Stopped,
        DiscardAt::ElsewhereSeen => s == DiskStep::RegisteredElsewhere,
        DiscardAt::DirectorySeen => s == DiskStep::DirectoryExists,
        DiscardAt::Anchored => s == DiskStep::AncestorVolume,
        DiscardAt::DirectoryPrivate => s == DiskStep::PrivateDirectory,
        DiscardAt::ApartSeen => s == DiskStep::RegisteredApart,
        DiscardAt::VolumeSeen => s == DiskStep::DirectoryVolume,
        DiscardAt::FilesSeen => s == DiskStep::OnlyDiskFiles,
        DiscardAt::ReceiptSeen => s == DiskStep::ReceiptExists,
        DiscardAt::ImageSeen => s == DiskStep::ImageExists,
        DiscardAt::ReceiptVerified => s == DiskStep::VerifyReceipt,
        DiscardAt::ImageVolume => s == DiskStep::ImageVolume,
        DiscardAt::ImageRemoved => s == DiskStep::RemoveImage,
        DiscardAt::ImageSynced => s == DiskStep::SyncDirectory,
        DiscardAt::ReceiptRemoved => s == DiskStep::RemoveReceipt,
        DiscardAt::ReceiptSynced => s == DiskStep::SyncDirectory,
        DiscardAt::DirectoryRemoved => s == DiskStep::RemoveDirectory,
        DiscardAt::Synced => s == DiskStep::SyncParent,
        DiscardAt::Over => s is Finish,
    }
}

/// What is kept through a run.
spec fn drop_kept(t: Discarding) -> bool {
    true
}

#[verifier::rlimit(60)]
#[verifier::spinoff_prover]
proof fn drop_lemma_enters(t: Discarding, s: DiskStep, e: DiskEvent)
    requires
        drop_kept(t),
        t.at == DiscardAt::Start || drop_entered(t, s),
    ensures
        drop_entered(drop_moved(t, e).0, drop_moved(t, e).1),
{
    reveal(drop_moved);
}

proof fn drop_lemma_run(es: Seq<DiskEvent>)
    requires
        es.len() > 0,
    ensures
        drop_entered(drop_reached(es), drop_asked(es)),
    decreases es.len(),
{
    let less = es.drop_last();
    assert(es =~= less.push(es.last()));
    drop_lemma_push(less, es.last());
    if less.len() == 0 {
        drop_lemma_fresh();
        assert(less =~= Seq::empty());
    } else {
        drop_lemma_run(less);
    }
    drop_lemma_enters(drop_reached(less), drop_asked(less), es.last());
}

/// An old copy is discarded under the storage lock, with the worker stopped, and only where Lima uses another place.
pub proof fn discards_begin_with_another_place()
    ensures
        drop_asked(seq![DiskEvent::Begin]) == (DiskStep::Lock),
        drop_asked(seq![DiskEvent::Begin].push(DiskEvent::Done)) == (DiskStep::Stopped),
        drop_asked(seq![DiskEvent::Begin].push(DiskEvent::Done).push(DiskEvent::Done))
            == (DiskStep::RegisteredElsewhere),
        drop_asked(seq![DiskEvent::Begin].push(DiskEvent::Done).push(DiskEvent::Done).push(DiskEvent::Answer(true))) == (DiskStep::DirectoryExists),
        drop_asked(seq![DiskEvent::Begin].push(DiskEvent::Done).push(DiskEvent::Done).push(DiskEvent::Answer(false))) == (DiskStep::Finish(DiskOutcome::Refused(DiskRefusal::StillRegistered))),
{
    let none = Seq::<DiskEvent>::empty();
    assert(none.push(DiskEvent::Begin) =~= seq![DiskEvent::Begin]);
    drop_lemma_fresh();
    drop_lemma_push(none, DiskEvent::Begin);
    drop_lemma_push(seq![DiskEvent::Begin], DiskEvent::Done);
    drop_lemma_push(seq![DiskEvent::Begin], DiskEvent::Done);
    drop_lemma_push(seq![DiskEvent::Begin].push(DiskEvent::Done), DiskEvent::Done);
    drop_lemma_push(seq![DiskEvent::Begin], DiskEvent::Done);
    drop_lemma_push(seq![DiskEvent::Begin].push(DiskEvent::Done), DiskEvent::Done);
    drop_lemma_push(seq![DiskEvent::Begin].push(DiskEvent::Done).push(DiskEvent::Done),
        DiskEvent::Answer(true));
    drop_lemma_push(seq![DiskEvent::Begin], DiskEvent::Done);
    drop_lemma_push(seq![DiskEvent::Begin].push(DiskEvent::Done), DiskEvent::Done);
    drop_lemma_push(seq![DiskEvent::Begin].push(DiskEvent::Done).push(DiskEvent::Done),
        DiskEvent::Answer(false));
    reveal(drop_moved);
}

proof fn lemma_old_copies_go_with_their_receipt_0(t: Discarding, here: bool, image: bool)
    requires
        t.at == DiscardAt::DirectorySeen,
        drop_kept(t),
    ensures
        ({
            &&& drop_moved(t, DiskEvent::Answer(here)).1
                == (if here { DiskStep::PrivateDirectory } else { DiskStep::AncestorVolume })
        }),
{
    reveal(drop_moved);
}

proof fn lemma_old_copies_go_with_their_receipt_1(t: Discarding, here: bool, image: bool)
    requires
        t.at == DiscardAt::Anchored,
        drop_kept(t),
    ensures
        ({
            &&& drop_moved(t, DiskEvent::Done).1 == (DiskStep::Finish(DiskOutcome::Done))
        }),
{
    reveal(drop_moved);
}

proof fn lemma_old_copies_go_with_their_receipt_2(t: Discarding, here: bool, image: bool)
    requires
        t.at == DiscardAt::DirectoryPrivate,
        drop_kept(t),
    ensures
        ({
            &&& drop_moved(t, DiskEvent::Done).1 == (DiskStep::RegisteredApart)
        }),
{
    reveal(drop_moved);
}

proof fn lemma_old_copies_go_with_their_receipt_3(t: Discarding, here: bool, image: bool)
    requires
        t.at == DiscardAt::ApartSeen,
        drop_kept(t),
    ensures
        ({
            &&& drop_moved(t, DiskEvent::Answer(here)).1
                == (if here { DiskStep::DirectoryVolume } else { DiskStep::Finish(DiskOutcome::Refused(DiskRefusal::StillRegistered)) })
        }),
{
    reveal(drop_moved);
}

proof fn lemma_old_copies_go_with_their_receipt_4(t: Discarding, here: bool, image: bool)
    requires
        t.at == DiscardAt::VolumeSeen,
        drop_kept(t),
    ensures
        ({
            &&& drop_moved(t, DiskEvent::Done).1 == (DiskStep::OnlyDiskFiles)
        }),
{
    reveal(drop_moved);
}

proof fn lemma_old_copies_go_with_their_receipt_5(t: Discarding, here: bool, image: bool)
    requires
        t.at == DiscardAt::FilesSeen,
        drop_kept(t),
    ensures
        ({
            &&& drop_moved(t, DiskEvent::Answer(here)).1
                == (if here { DiskStep::ReceiptExists } else { DiskStep::Finish(DiskOutcome::Refused(DiskRefusal::UnexpectedRetainedFiles)) })
        }),
{
    reveal(drop_moved);
}

proof fn lemma_old_copies_go_with_their_receipt_6(t: Discarding, here: bool, image: bool)
    requires
        t.at == DiscardAt::ReceiptSeen,
        drop_kept(t),
    ensures
        ({
            &&& drop_moved(t, DiskEvent::Answer(here)).1 == (DiskStep::ImageExists)
            &&& drop_moved(drop_moved(t, DiskEvent::Answer(here)).0, DiskEvent::Answer(image)).1
                == (if image
                    && !here { DiskStep::Finish(DiskOutcome::Refused(DiskRefusal::NoRetainedReceipt)) } else { if here { DiskStep::VerifyReceipt } else { DiskStep::RemoveDirectory } })
            &&& drop_moved(drop_moved(drop_moved(t, DiskEvent::Answer(true)).0,
                DiskEvent::Answer(image)).0, DiskEvent::Done).1
                    == (if image { DiskStep::ImageVolume } else { DiskStep::RemoveReceipt })
            &&& drop_moved(drop_moved(drop_moved(drop_moved(t, DiskEvent::Answer(true)).0,
                DiskEvent::Answer(true)).0, DiskEvent::Done).0, DiskEvent::Done).1
                    == (DiskStep::RemoveImage)
            &&& drop_moved(drop_moved(drop_moved(drop_moved(drop_moved(t,
                DiskEvent::Answer(true)).0, DiskEvent::Answer(true)).0, DiskEvent::Done).0,
                    DiskEvent::Done).0, DiskEvent::Done).1 == (DiskStep::SyncDirectory)
            &&& drop_moved(drop_moved(drop_moved(drop_moved(drop_moved(drop_moved(t,
                DiskEvent::Answer(true)).0, DiskEvent::Answer(true)).0, DiskEvent::Done).0,
                    DiskEvent::Done).0, DiskEvent::Done).0, DiskEvent::Done).1
                        == (DiskStep::RemoveReceipt)
        }),
{
    reveal(drop_moved);
}

proof fn lemma_old_copies_go_with_their_receipt_7(t: Discarding, here: bool, image: bool)
    requires
        t.at == DiscardAt::ReceiptRemoved,
        drop_kept(t),
    ensures
        ({
            &&& drop_moved(t, DiskEvent::Done).1 == (DiskStep::SyncDirectory)
            &&& drop_moved(drop_moved(t, DiskEvent::Done).0, DiskEvent::Done).1
                == (DiskStep::RemoveDirectory)
        }),
{
    reveal(drop_moved);
}

proof fn lemma_old_copies_go_with_their_receipt_8(t: Discarding, here: bool, image: bool)
    requires
        t.at == DiscardAt::DirectoryRemoved,
        drop_kept(t),
    ensures
        ({
            &&& drop_moved(t, DiskEvent::Done).1 == (DiskStep::SyncParent)
        }),
{
    reveal(drop_moved);
}

proof fn lemma_old_copies_go_with_their_receipt_9(t: Discarding, here: bool, image: bool)
    requires
        t.at == DiscardAt::Synced,
        drop_kept(t),
    ensures
        ({
            &&& drop_moved(t, DiskEvent::Done).1 == (DiskStep::Finish(DiskOutcome::Done))
        }),
{
    reveal(drop_moved);
}

/// An old copy goes only where the place in use is really another, from a private directory
/// on its volume that holds nothing but the disk's files, and its image only with a
/// receipt that is the disk's.
pub proof fn old_copies_go_with_their_receipt(es: Seq<DiskEvent>, here: bool, image: bool)
    requires
        es.len() > 0,
    ensures
        ({
            let s = drop_asked(es);
            let t = drop_reached(es);
            &&& s == DiskStep::DirectoryExists
                ==> drop_asked(es.push(DiskEvent::Answer(here)))
                    == (if here { DiskStep::PrivateDirectory } else { DiskStep::AncestorVolume })
            &&& s == DiskStep::AncestorVolume
                ==> drop_asked(es.push(DiskEvent::Done)) == (DiskStep::Finish(DiskOutcome::Done))
            &&& s == DiskStep::PrivateDirectory
                ==> drop_asked(es.push(DiskEvent::Done)) == (DiskStep::RegisteredApart)
            &&& s == DiskStep::RegisteredApart
                ==> drop_asked(es.push(DiskEvent::Answer(here)))
                    == (if here { DiskStep::DirectoryVolume } else { DiskStep::Finish(DiskOutcome::Refused(DiskRefusal::StillRegistered)) })
            &&& s == DiskStep::DirectoryVolume
                ==> drop_asked(es.push(DiskEvent::Done)) == (DiskStep::OnlyDiskFiles)
            &&& s == DiskStep::OnlyDiskFiles
                ==> drop_asked(es.push(DiskEvent::Answer(here)))
                    == (if here { DiskStep::ReceiptExists } else { DiskStep::Finish(DiskOutcome::Refused(DiskRefusal::UnexpectedRetainedFiles)) })
            &&& s == DiskStep::ReceiptExists
                ==> drop_asked(es.push(DiskEvent::Answer(here))) == (DiskStep::ImageExists)
            &&& s == DiskStep::ReceiptExists
                ==> drop_asked(es.push(DiskEvent::Answer(here)).push(DiskEvent::Answer(image)))
                    == (if image
                        && !here { DiskStep::Finish(DiskOutcome::Refused(DiskRefusal::NoRetainedReceipt)) } else { if here { DiskStep::VerifyReceipt } else { DiskStep::RemoveDirectory } })
            &&& s == DiskStep::ReceiptExists
                ==> drop_asked(es.push(DiskEvent::Answer(true)).push(DiskEvent::Answer(image)).push(DiskEvent::Done)) == (if image { DiskStep::ImageVolume } else { DiskStep::RemoveReceipt })
            &&& s == DiskStep::ReceiptExists
                ==> drop_asked(es.push(DiskEvent::Answer(true)).push(DiskEvent::Answer(true)).push(DiskEvent::Done).push(DiskEvent::Done)) == (DiskStep::RemoveImage)
            &&& s == DiskStep::ReceiptExists
                ==> drop_asked(es.push(DiskEvent::Answer(true)).push(DiskEvent::Answer(true)).push(DiskEvent::Done).push(DiskEvent::Done).push(DiskEvent::Done)) == (DiskStep::SyncDirectory)
            &&& s == DiskStep::ReceiptExists
                ==> drop_asked(es.push(DiskEvent::Answer(true)).push(DiskEvent::Answer(true)).push(DiskEvent::Done).push(DiskEvent::Done).push(DiskEvent::Done).push(DiskEvent::Done)) == (DiskStep::RemoveReceipt)
            &&& s == DiskStep::RemoveReceipt
                ==> drop_asked(es.push(DiskEvent::Done)) == (DiskStep::SyncDirectory)
            &&& s == DiskStep::RemoveReceipt
                ==> drop_asked(es.push(DiskEvent::Done).push(DiskEvent::Done))
                    == (DiskStep::RemoveDirectory)
            &&& s == DiskStep::RemoveDirectory
                ==> drop_asked(es.push(DiskEvent::Done)) == (DiskStep::SyncParent)
            &&& s == DiskStep::SyncParent
                ==> drop_asked(es.push(DiskEvent::Done)) == (DiskStep::Finish(DiskOutcome::Done))
        }),
{
    drop_lemma_run(es);
    let s = drop_asked(es);
    let t = drop_reached(es);
    if s == DiskStep::DirectoryExists {
        lemma_old_copies_go_with_their_receipt_0(t, here, image);
        drop_lemma_push(es, DiskEvent::Answer(here));
    }
    if s == DiskStep::AncestorVolume {
        lemma_old_copies_go_with_their_receipt_1(t, here, image);
        drop_lemma_push(es, DiskEvent::Done);
    }
    if s == DiskStep::PrivateDirectory {
        lemma_old_copies_go_with_their_receipt_2(t, here, image);
        drop_lemma_push(es, DiskEvent::Done);
    }
    if s == DiskStep::RegisteredApart {
        lemma_old_copies_go_with_their_receipt_3(t, here, image);
        drop_lemma_push(es, DiskEvent::Answer(here));
    }
    if s == DiskStep::DirectoryVolume {
        lemma_old_copies_go_with_their_receipt_4(t, here, image);
        drop_lemma_push(es, DiskEvent::Done);
    }
    if s == DiskStep::OnlyDiskFiles {
        lemma_old_copies_go_with_their_receipt_5(t, here, image);
        drop_lemma_push(es, DiskEvent::Answer(here));
    }
    if s == DiskStep::ReceiptExists {
        lemma_old_copies_go_with_their_receipt_6(t, here, image);
        drop_lemma_push(es, DiskEvent::Answer(here));
        drop_lemma_push(es.push(DiskEvent::Answer(here)), DiskEvent::Answer(image));
        drop_lemma_push(es, DiskEvent::Answer(true));
        drop_lemma_push(es.push(DiskEvent::Answer(true)), DiskEvent::Answer(image));
        drop_lemma_push(es.push(DiskEvent::Answer(true)).push(DiskEvent::Answer(image)),
            DiskEvent::Done);
        drop_lemma_push(es.push(DiskEvent::Answer(true)), DiskEvent::Answer(true));
        drop_lemma_push(es.push(DiskEvent::Answer(true)).push(DiskEvent::Answer(true)),
            DiskEvent::Done);
        drop_lemma_push(es.push(DiskEvent::Answer(true)).push(DiskEvent::Answer(true)).push(DiskEvent::Done), DiskEvent::Done);
        drop_lemma_push(es.push(DiskEvent::Answer(true)).push(DiskEvent::Answer(true)).push(DiskEvent::Done).push(DiskEvent::Done), DiskEvent::Done);
        drop_lemma_push(es.push(DiskEvent::Answer(true)).push(DiskEvent::Answer(true)).push(DiskEvent::Done).push(DiskEvent::Done).push(DiskEvent::Done), DiskEvent::Done);
    }
    if s == DiskStep::RemoveReceipt {
        lemma_old_copies_go_with_their_receipt_7(t, here, image);
        drop_lemma_push(es, DiskEvent::Done);
        drop_lemma_push(es.push(DiskEvent::Done), DiskEvent::Done);
    }
    if s == DiskStep::RemoveDirectory {
        lemma_old_copies_go_with_their_receipt_8(t, here, image);
        drop_lemma_push(es, DiskEvent::Done);
    }
    if s == DiskStep::SyncParent {
        lemma_old_copies_go_with_their_receipt_9(t, here, image);
        drop_lemma_push(es, DiskEvent::Done);
    }
}

#[verifier::rlimit(60)]
#[verifier::spinoff_prover]
proof fn lemma_failed_discards_end(t: Discarding, s: DiskStep)
    requires
        drop_entered(t, s),
        s == DiskStep::Lock || s == DiskStep::Stopped || s == DiskStep::RegisteredElsewhere || s
            == DiskStep::AncestorVolume || s == DiskStep::PrivateDirectory || s
                == DiskStep::RegisteredApart || s == DiskStep::DirectoryVolume || s
                    == DiskStep::OnlyDiskFiles || s == DiskStep::VerifyReceipt || s
                        == DiskStep::ImageVolume || s == DiskStep::RemoveImage || s
                            == DiskStep::RemoveReceipt || s == DiskStep::RemoveDirectory || s
                                == DiskStep::SyncParent,
    ensures
        drop_moved(t, DiskEvent::Failed).1 == DiskStep::Finish(DiskOutcome::Failed),
{
    reveal(drop_moved);
}

/// A discard ends at a step that fails.
pub proof fn failed_discards_end(es: Seq<DiskEvent>)
    requires
        es.len() > 0,
        drop_asked(es) == DiskStep::Lock || drop_asked(es) == DiskStep::Stopped || drop_asked(es)
            == DiskStep::RegisteredElsewhere || drop_asked(es)
                == DiskStep::AncestorVolume || drop_asked(es)
                    == DiskStep::PrivateDirectory || drop_asked(es)
                        == DiskStep::RegisteredApart || drop_asked(es)
                            == DiskStep::DirectoryVolume || drop_asked(es)
                                == DiskStep::OnlyDiskFiles || drop_asked(es)
                                    == DiskStep::VerifyReceipt || drop_asked(es)
                                        == DiskStep::ImageVolume || drop_asked(es)
                                            == DiskStep::RemoveImage || drop_asked(es)
                                                == DiskStep::RemoveReceipt || drop_asked(es)
                                                    == DiskStep::RemoveDirectory || drop_asked(es)
                                                        == DiskStep::SyncParent,
    ensures
        drop_asked(es.push(DiskEvent::Failed)) == DiskStep::Finish(DiskOutcome::Failed),
{
    drop_lemma_run(es);
    lemma_failed_discards_end(drop_reached(es), drop_asked(es));
    drop_lemma_push(es, DiskEvent::Failed);
}

/// A move of the machine.
#[verifier::opaque]
spec fn stage_moved(t: Staging, e: DiskEvent) -> (Staging, DiskStep) {
    stage_after(t, e)
}

/// What is reached after these answers.
#[verifier::opaque]
pub open spec fn stage_reached(es: Seq<DiskEvent>) -> Staging
    decreases es.len(),
{
    if es.len() == 0 {
        (Staging { at: StageAt::Start, verified: false })
    } else {
        stage_after(stage_reached(es.drop_last()), es.last()).0
    }
}

/// What is asked for after these answers.
#[verifier::opaque]
pub open spec fn stage_asked(es: Seq<DiskEvent>) -> DiskStep
    recommends
        es.len() > 0,
{
    stage_after(stage_reached(es.drop_last()), es.last()).1
}

proof fn stage_lemma_push(es: Seq<DiskEvent>, e: DiskEvent)
    ensures
        stage_reached(es.push(e)) == stage_moved(stage_reached(es), e).0,
        stage_asked(es.push(e)) == stage_moved(stage_reached(es), e).1,
{
    reveal(stage_reached);
    reveal(stage_asked);
    reveal(stage_moved);
    assert(es.push(e).drop_last() =~= es);
}

proof fn stage_lemma_fresh()
    ensures
        stage_reached(Seq::empty()) == (Staging { at: StageAt::Start, verified: false }),
{
    reveal(stage_reached);
}

/// What is kept through a run, and the step that was asked for where it stands.
spec fn stage_entered(t: Staging, s: DiskStep) -> bool {
    true && match t.at {
        StageAt::Start => false,
        StageAt::TargetSeen => s == DiskStep::TargetExists,
        StageAt::TargetPrivate => s == DiskStep::PrivateTarget,
        StageAt::TargetMatched => s == DiskStep::TargetReceiptMatches,
        StageAt::TargetVerified => s == DiskStep::VerifyCopy,
        StageAt::PendingSeen => s == DiskStep::PendingCopyExists,
        StageAt::PendingPrivate => s == DiskStep::PrivatePending,
        StageAt::PendingVolume => s == DiskStep::PendingVolume,
        StageAt::PendingMatched => s == DiskStep::PendingReceiptMatches,
        StageAt::PendingFiles => s == DiskStep::OnlyPendingFiles,
        StageAt::PendingImage => s == DiskStep::PendingImageExists,
        StageAt::PendingImageVolume => s == DiskStep::PendingImageVolume,
        StageAt::PendingCleared => s == DiskStep::RemovePendingImage,
        StageAt::PendingMade => s == DiskStep::MakePending,
        StageAt::ReceiptWritten => s == DiskStep::WritePendingReceipt,
        StageAt::Copied => s == DiskStep::SparseCopy,
        StageAt::Verified => s == DiskStep::VerifyCopy,
        StageAt::Synced => s == DiskStep::SyncPending,
        StageAt::Renamed => s == DiskStep::RenamePending,
        StageAt::ParentSynced => s == DiskStep::SyncParent,
        StageAt::Over => s is Finish,
    }
}

/// What is kept through a run.
spec fn stage_kept(t: Staging) -> bool {
    true
}

#[verifier::rlimit(60)]
#[verifier::spinoff_prover]
proof fn stage_lemma_enters(t: Staging, s: DiskStep, e: DiskEvent)
    requires
        stage_kept(t),
        t.at == StageAt::Start || stage_entered(t, s),
    ensures
        stage_entered(stage_moved(t, e).0, stage_moved(t, e).1),
{
    reveal(stage_moved);
}

proof fn stage_lemma_run(es: Seq<DiskEvent>)
    requires
        es.len() > 0,
    ensures
        stage_entered(stage_reached(es), stage_asked(es)),
    decreases es.len(),
{
    let less = es.drop_last();
    assert(es =~= less.push(es.last()));
    stage_lemma_push(less, es.last());
    if less.len() == 0 {
        stage_lemma_fresh();
        assert(less =~= Seq::empty());
    } else {
        stage_lemma_run(less);
    }
    stage_lemma_enters(stage_reached(less), stage_asked(less), es.last());
}

/// A copy begins with a look at its place.
pub proof fn copies_begin_with_a_look(here: bool)
    ensures
        stage_asked(seq![DiskEvent::Begin]) == (DiskStep::TargetExists),
        stage_asked(seq![DiskEvent::Begin].push(DiskEvent::Answer(here)))
            == (if here { DiskStep::PrivateTarget } else { DiskStep::PendingCopyExists }),
{
    let none = Seq::<DiskEvent>::empty();
    assert(none.push(DiskEvent::Begin) =~= seq![DiskEvent::Begin]);
    stage_lemma_fresh();
    stage_lemma_push(none, DiskEvent::Begin);
    stage_lemma_push(seq![DiskEvent::Begin], DiskEvent::Answer(here));
    reveal(stage_moved);
}

proof fn lemma_staged_copies_are_compared_before_they_show_0(t: Staging, here: bool)
    requires
        t.at == StageAt::TargetPrivate,
        stage_kept(t),
    ensures
        ({
            &&& stage_moved(t, DiskEvent::Done).1 == (DiskStep::TargetReceiptMatches)
        }),
{
    reveal(stage_moved);
}

proof fn lemma_staged_copies_are_compared_before_they_show_1(t: Staging, here: bool)
    requires
        t.at == StageAt::TargetMatched,
        stage_kept(t),
    ensures
        ({
            &&& stage_moved(t, DiskEvent::Answer(here)).1
                == (if here { DiskStep::VerifyCopy } else { DiskStep::Finish(DiskOutcome::Refused(DiskRefusal::DestinationTaken)) })
            &&& stage_moved(stage_moved(t, DiskEvent::Answer(true)).0, DiskEvent::Done).1
                == (DiskStep::Finish(DiskOutcome::Done))
        }),
{
    reveal(stage_moved);
}

proof fn lemma_staged_copies_are_compared_before_they_show_2(t: Staging, here: bool)
    requires
        t.at == StageAt::PendingSeen,
        stage_kept(t),
    ensures
        ({
            &&& stage_moved(t, DiskEvent::Answer(here)).1
                == (if here { DiskStep::PrivatePending } else { DiskStep::MakePending })
        }),
{
    reveal(stage_moved);
}

proof fn lemma_staged_copies_are_compared_before_they_show_3(t: Staging, here: bool)
    requires
        t.at == StageAt::PendingPrivate,
        stage_kept(t),
    ensures
        ({
            &&& stage_moved(t, DiskEvent::Done).1 == (DiskStep::PendingVolume)
        }),
{
    reveal(stage_moved);
}

proof fn lemma_staged_copies_are_compared_before_they_show_4(t: Staging, here: bool)
    requires
        t.at == StageAt::PendingVolume,
        stage_kept(t),
    ensures
        ({
            &&& stage_moved(t, DiskEvent::Done).1 == (DiskStep::PendingReceiptMatches)
        }),
{
    reveal(stage_moved);
}

proof fn lemma_staged_copies_are_compared_before_they_show_5(t: Staging, here: bool)
    requires
        t.at == StageAt::PendingMatched,
        stage_kept(t),
    ensures
        ({
            &&& stage_moved(t, DiskEvent::Answer(here)).1
                == (if here { DiskStep::OnlyPendingFiles } else { DiskStep::Finish(DiskOutcome::Refused(DiskRefusal::PendingTaken)) })
        }),
{
    reveal(stage_moved);
}

proof fn lemma_staged_copies_are_compared_before_they_show_6(t: Staging, here: bool)
    requires
        t.at == StageAt::PendingFiles,
        stage_kept(t),
    ensures
        ({
            &&& stage_moved(t, DiskEvent::Answer(here)).1
                == (if here { DiskStep::PendingImageExists } else { DiskStep::Finish(DiskOutcome::Refused(DiskRefusal::UnexpectedPendingFiles)) })
        }),
{
    reveal(stage_moved);
}

proof fn lemma_staged_copies_are_compared_before_they_show_7(t: Staging, here: bool)
    requires
        t.at == StageAt::PendingImage,
        stage_kept(t),
    ensures
        ({
            &&& stage_moved(t, DiskEvent::Answer(here)).1
                == (if here { DiskStep::PendingImageVolume } else { DiskStep::SparseCopy })
        }),
{
    reveal(stage_moved);
}

proof fn lemma_staged_copies_are_compared_before_they_show_8(t: Staging, here: bool)
    requires
        t.at == StageAt::PendingImageVolume,
        stage_kept(t),
    ensures
        ({
            &&& stage_moved(t, DiskEvent::Done).1 == (DiskStep::RemovePendingImage)
        }),
{
    reveal(stage_moved);
}

proof fn lemma_staged_copies_are_compared_before_they_show_9(t: Staging, here: bool)
    requires
        t.at == StageAt::PendingCleared,
        stage_kept(t),
    ensures
        ({
            &&& stage_moved(t, DiskEvent::Done).1 == (DiskStep::SparseCopy)
        }),
{
    reveal(stage_moved);
}

proof fn lemma_staged_copies_are_compared_before_they_show_10(t: Staging, here: bool)
    requires
        t.at == StageAt::PendingMade,
        stage_kept(t),
    ensures
        ({
            &&& stage_moved(t, DiskEvent::Done).1 == (DiskStep::WritePendingReceipt)
        }),
{
    reveal(stage_moved);
}

proof fn lemma_staged_copies_are_compared_before_they_show_11(t: Staging, here: bool)
    requires
        t.at == StageAt::ReceiptWritten,
        stage_kept(t),
    ensures
        ({
            &&& stage_moved(t, DiskEvent::Done).1 == (DiskStep::SparseCopy)
        }),
{
    reveal(stage_moved);
}

proof fn lemma_staged_copies_are_compared_before_they_show_12(t: Staging, here: bool)
    requires
        t.at == StageAt::Copied,
        stage_kept(t),
    ensures
        ({
            &&& stage_moved(t, DiskEvent::Done).1 == (DiskStep::VerifyCopy)
            &&& stage_moved(stage_moved(t, DiskEvent::Done).0, DiskEvent::Done).1
                == (DiskStep::SyncPending)
        }),
{
    reveal(stage_moved);
}

proof fn lemma_staged_copies_are_compared_before_they_show_13(t: Staging, here: bool)
    requires
        t.at == StageAt::Synced,
        stage_kept(t),
    ensures
        ({
            &&& stage_moved(t, DiskEvent::Done).1 == (DiskStep::RenamePending)
        }),
{
    reveal(stage_moved);
}

proof fn lemma_staged_copies_are_compared_before_they_show_14(t: Staging, here: bool)
    requires
        t.at == StageAt::Renamed,
        stage_kept(t),
    ensures
        ({
            &&& stage_moved(t, DiskEvent::Done).1 == (DiskStep::SyncParent)
        }),
{
    reveal(stage_moved);
}

proof fn lemma_staged_copies_are_compared_before_they_show_15(t: Staging, here: bool)
    requires
        t.at == StageAt::ParentSynced,
        stage_kept(t),
    ensures
        ({
            &&& stage_moved(t, DiskEvent::Done).1 == (DiskStep::Finish(DiskOutcome::Done))
        }),
{
    reveal(stage_moved);
}

/// A copy that is there already is used only where it is this disk's and equal to its
/// source. Any other is made aside, with its receipt, compared with its source, written out
/// and only then put in its place; what a cut copy left is used only where it is this
/// disk's.
pub proof fn staged_copies_are_compared_before_they_show(es: Seq<DiskEvent>, here: bool)
    requires
        es.len() > 0,
    ensures
        ({
            let s = stage_asked(es);
            let t = stage_reached(es);
            &&& s == DiskStep::PrivateTarget
                ==> stage_asked(es.push(DiskEvent::Done)) == (DiskStep::TargetReceiptMatches)
            &&& s == DiskStep::TargetReceiptMatches
                ==> stage_asked(es.push(DiskEvent::Answer(here)))
                    == (if here { DiskStep::VerifyCopy } else { DiskStep::Finish(DiskOutcome::Refused(DiskRefusal::DestinationTaken)) })
            &&& s == DiskStep::TargetReceiptMatches
                ==> stage_asked(es.push(DiskEvent::Answer(true)).push(DiskEvent::Done))
                    == (DiskStep::Finish(DiskOutcome::Done))
            &&& s == DiskStep::PendingCopyExists
                ==> stage_asked(es.push(DiskEvent::Answer(here)))
                    == (if here { DiskStep::PrivatePending } else { DiskStep::MakePending })
            &&& s == DiskStep::PrivatePending
                ==> stage_asked(es.push(DiskEvent::Done)) == (DiskStep::PendingVolume)
            &&& s == DiskStep::PendingVolume
                ==> stage_asked(es.push(DiskEvent::Done)) == (DiskStep::PendingReceiptMatches)
            &&& s == DiskStep::PendingReceiptMatches
                ==> stage_asked(es.push(DiskEvent::Answer(here)))
                    == (if here { DiskStep::OnlyPendingFiles } else { DiskStep::Finish(DiskOutcome::Refused(DiskRefusal::PendingTaken)) })
            &&& s == DiskStep::OnlyPendingFiles
                ==> stage_asked(es.push(DiskEvent::Answer(here)))
                    == (if here { DiskStep::PendingImageExists } else { DiskStep::Finish(DiskOutcome::Refused(DiskRefusal::UnexpectedPendingFiles)) })
            &&& s == DiskStep::PendingImageExists
                ==> stage_asked(es.push(DiskEvent::Answer(here)))
                    == (if here { DiskStep::PendingImageVolume } else { DiskStep::SparseCopy })
            &&& s == DiskStep::PendingImageVolume
                ==> stage_asked(es.push(DiskEvent::Done)) == (DiskStep::RemovePendingImage)
            &&& s == DiskStep::RemovePendingImage
                ==> stage_asked(es.push(DiskEvent::Done)) == (DiskStep::SparseCopy)
            &&& s == DiskStep::MakePending
                ==> stage_asked(es.push(DiskEvent::Done)) == (DiskStep::WritePendingReceipt)
            &&& s == DiskStep::WritePendingReceipt
                ==> stage_asked(es.push(DiskEvent::Done)) == (DiskStep::SparseCopy)
            &&& s == DiskStep::SparseCopy
                ==> stage_asked(es.push(DiskEvent::Done)) == (DiskStep::VerifyCopy)
            &&& s == DiskStep::SparseCopy
                ==> stage_asked(es.push(DiskEvent::Done).push(DiskEvent::Done))
                    == (DiskStep::SyncPending)
            &&& s == DiskStep::SyncPending
                ==> stage_asked(es.push(DiskEvent::Done)) == (DiskStep::RenamePending)
            &&& s == DiskStep::RenamePending
                ==> stage_asked(es.push(DiskEvent::Done)) == (DiskStep::SyncParent)
            &&& s == DiskStep::SyncParent
                ==> stage_asked(es.push(DiskEvent::Done)) == (DiskStep::Finish(DiskOutcome::Done))
        }),
{
    stage_lemma_run(es);
    let s = stage_asked(es);
    let t = stage_reached(es);
    if s == DiskStep::PrivateTarget {
        lemma_staged_copies_are_compared_before_they_show_0(t, here);
        stage_lemma_push(es, DiskEvent::Done);
    }
    if s == DiskStep::TargetReceiptMatches {
        lemma_staged_copies_are_compared_before_they_show_1(t, here);
        stage_lemma_push(es, DiskEvent::Answer(here));
        stage_lemma_push(es, DiskEvent::Answer(true));
        stage_lemma_push(es.push(DiskEvent::Answer(true)), DiskEvent::Done);
    }
    if s == DiskStep::PendingCopyExists {
        lemma_staged_copies_are_compared_before_they_show_2(t, here);
        stage_lemma_push(es, DiskEvent::Answer(here));
    }
    if s == DiskStep::PrivatePending {
        lemma_staged_copies_are_compared_before_they_show_3(t, here);
        stage_lemma_push(es, DiskEvent::Done);
    }
    if s == DiskStep::PendingVolume {
        lemma_staged_copies_are_compared_before_they_show_4(t, here);
        stage_lemma_push(es, DiskEvent::Done);
    }
    if s == DiskStep::PendingReceiptMatches {
        lemma_staged_copies_are_compared_before_they_show_5(t, here);
        stage_lemma_push(es, DiskEvent::Answer(here));
    }
    if s == DiskStep::OnlyPendingFiles {
        lemma_staged_copies_are_compared_before_they_show_6(t, here);
        stage_lemma_push(es, DiskEvent::Answer(here));
    }
    if s == DiskStep::PendingImageExists {
        lemma_staged_copies_are_compared_before_they_show_7(t, here);
        stage_lemma_push(es, DiskEvent::Answer(here));
    }
    if s == DiskStep::PendingImageVolume {
        lemma_staged_copies_are_compared_before_they_show_8(t, here);
        stage_lemma_push(es, DiskEvent::Done);
    }
    if s == DiskStep::RemovePendingImage {
        lemma_staged_copies_are_compared_before_they_show_9(t, here);
        stage_lemma_push(es, DiskEvent::Done);
    }
    if s == DiskStep::MakePending {
        lemma_staged_copies_are_compared_before_they_show_10(t, here);
        stage_lemma_push(es, DiskEvent::Done);
    }
    if s == DiskStep::WritePendingReceipt {
        lemma_staged_copies_are_compared_before_they_show_11(t, here);
        stage_lemma_push(es, DiskEvent::Done);
    }
    if s == DiskStep::SparseCopy {
        lemma_staged_copies_are_compared_before_they_show_12(t, here);
        stage_lemma_push(es, DiskEvent::Done);
        stage_lemma_push(es.push(DiskEvent::Done), DiskEvent::Done);
    }
    if s == DiskStep::SyncPending {
        lemma_staged_copies_are_compared_before_they_show_13(t, here);
        stage_lemma_push(es, DiskEvent::Done);
    }
    if s == DiskStep::RenamePending {
        lemma_staged_copies_are_compared_before_they_show_14(t, here);
        stage_lemma_push(es, DiskEvent::Done);
    }
    if s == DiskStep::SyncParent {
        lemma_staged_copies_are_compared_before_they_show_15(t, here);
        stage_lemma_push(es, DiskEvent::Done);
    }
}

#[verifier::rlimit(60)]
#[verifier::spinoff_prover]
proof fn lemma_failed_copies_end(t: Staging, s: DiskStep)
    requires
        stage_entered(t, s),
        s == DiskStep::PrivateTarget || s == DiskStep::VerifyCopy || s
            == DiskStep::PrivatePending || s == DiskStep::PendingVolume || s
                == DiskStep::OnlyPendingFiles || s == DiskStep::PendingImageVolume || s
                    == DiskStep::RemovePendingImage || s == DiskStep::MakePending || s
                        == DiskStep::WritePendingReceipt || s == DiskStep::SparseCopy || s
                            == DiskStep::SyncPending || s == DiskStep::RenamePending || s
                                == DiskStep::SyncParent,
    ensures
        stage_moved(t, DiskEvent::Failed).1 == DiskStep::Finish(DiskOutcome::Failed),
{
    reveal(stage_moved);
}

/// A copy ends at a step that fails, out of sight.
pub proof fn failed_copies_end(es: Seq<DiskEvent>)
    requires
        es.len() > 0,
        stage_asked(es) == DiskStep::PrivateTarget || stage_asked(es)
            == DiskStep::VerifyCopy || stage_asked(es)
                == DiskStep::PrivatePending || stage_asked(es)
                    == DiskStep::PendingVolume || stage_asked(es)
                        == DiskStep::OnlyPendingFiles || stage_asked(es)
                            == DiskStep::PendingImageVolume || stage_asked(es)
                                == DiskStep::RemovePendingImage || stage_asked(es)
                                    == DiskStep::MakePending || stage_asked(es)
                                        == DiskStep::WritePendingReceipt || stage_asked(es)
                                            == DiskStep::SparseCopy || stage_asked(es)
                                                == DiskStep::SyncPending || stage_asked(es)
                                                    == DiskStep::RenamePending || stage_asked(es)
                                                        == DiskStep::SyncParent,
    ensures
        stage_asked(es.push(DiskEvent::Failed)) == DiskStep::Finish(DiskOutcome::Failed),
{
    stage_lemma_run(es);
    lemma_failed_copies_end(stage_reached(es), stage_asked(es));
    stage_lemma_push(es, DiskEvent::Failed);
}

/// A growth is that of one disk where the identities are the same, in place where the
/// folder and the volume are and no space is lost, and its sizes are those of the grants.
pub proof fn growths_are_told_from_the_places(old: LocationView, new: LocationView)
    requires
        old.allocation_gib <= 1_048_576,
        new.allocation_gib <= 1_048_576,
    ensures
        ({
            let g = growth_of(old, new);
            &&& g.same_id <==> old.id == new.id
            &&& g.in_place <==> old.directory == new.directory && old.volume_id == new.volume_id
                && new.allocation_gib >= old.allocation_gib
            &&& g.old_bytes == old.allocation_gib * 1_073_741_824
            &&& g.new_bytes == new.allocation_gib * 1_073_741_824
        }),
{
}

} // verus!
