//! Whole operations on the VM, from their first step: which step follows which answer.
use crate::agent::steps::Sight;
use crate::vm_operations::{
    fresh_run, seconds_allowed, vm_after, GuestTask, VmEvent, VmOutcome, VmRefusal, VmRun, VmStep,
    VmWork,
};
use vstd::prelude::*;

verus! {

/// A move of the machine.
#[verifier::opaque]
spec fn vm_moved(t: VmRun, e: VmEvent) -> (VmRun, VmStep) {
    vm_after(t, e)
}

/// What is reached after these answers.
#[verifier::opaque]
pub open spec fn vm_reached(work: VmWork, lima: bool, es: Seq<VmEvent>) -> VmRun
    decreases es.len(),
{
    if es.len() == 0 {
        fresh_run(work, lima)
    } else {
        vm_after(vm_reached(work, lima, es.drop_last()), es.last()).0
    }
}

/// What is asked for after these answers.
#[verifier::opaque]
pub open spec fn vm_asked(work: VmWork, lima: bool, es: Seq<VmEvent>) -> VmStep
    recommends
        es.len() > 0,
{
    vm_after(vm_reached(work, lima, es.drop_last()), es.last()).1
}

proof fn vm_lemma_push(work: VmWork, lima: bool, es: Seq<VmEvent>, e: VmEvent)
    ensures
        vm_reached(work, lima, es.push(e)) == vm_moved(vm_reached(work, lima, es), e).0,
        vm_asked(work, lima, es.push(e)) == vm_moved(vm_reached(work, lima, es), e).1,
{
    reveal(vm_reached);
    reveal(vm_asked);
    reveal(vm_moved);
    assert(es.push(e).drop_last() =~= es);
}

proof fn vm_lemma_fresh(work: VmWork, lima: bool)
    ensures
        vm_reached(work, lima, Seq::empty()) == fresh_run(work, lima),
{
    reveal(vm_reached);
}

/// A VM is stopped with its receipt, or once its guest said that it is this computer's;
/// that it rests is seen, not believed.
pub proof fn vms_are_stopped_and_seen_to_rest(work: VmWork, lima: bool, o: Sight, here: bool)
    ensures
        work == VmWork::Stop ==> vm_asked(work, lima, seq![VmEvent::Begin]) == (VmStep::Receipt),
        work == VmWork::Stop
            ==> vm_asked(work, lima, seq![VmEvent::Begin].push(VmEvent::Answer(true)))
                == (VmStep::StopVm),
        work == VmWork::Stop
            ==> vm_asked(work, lima, seq![VmEvent::Begin].push(VmEvent::Answer(false)))
                == (VmStep::VerifyOwner),
        work == VmWork::Stop
            ==> vm_asked(work, lima,
                seq![VmEvent::Begin].push(VmEvent::Answer(false)).push(VmEvent::Done))
                    == (VmStep::StopVm),
        work == VmWork::Stop
            ==> vm_asked(work, lima,
                seq![VmEvent::Begin].push(VmEvent::Answer(true)).push(VmEvent::Done))
                    == (VmStep::Look),
        work == VmWork::Stop
            ==> vm_asked(work, lima,
                seq![VmEvent::Begin].push(VmEvent::Answer(true)).push(VmEvent::Done).push(VmEvent::Seen(o))) == (if o.running { VmStep::Finish(VmOutcome::Refused(VmRefusal::NotStopped)) } else { VmStep::Finish(VmOutcome::Done) }),
        work == VmWork::Stop
            ==> vm_asked(work, lima,
                seq![VmEvent::Begin].push(VmEvent::Answer(false)).push(VmEvent::Done).push(VmEvent::Done)) == (VmStep::Look),
        work == VmWork::Stop
            ==> vm_asked(work, lima,
                seq![VmEvent::Begin].push(VmEvent::Answer(false)).push(VmEvent::Done).push(VmEvent::Done).push(VmEvent::Seen(o))) == (if o.running { VmStep::Finish(VmOutcome::Refused(VmRefusal::NotStopped)) } else { VmStep::Finish(VmOutcome::Done) }),
{
    let none = Seq::<VmEvent>::empty();
    assert(none.push(VmEvent::Begin) =~= seq![VmEvent::Begin]);
    vm_lemma_fresh(work, lima);
    vm_lemma_push(work, lima, none, VmEvent::Begin);
    vm_lemma_push(work, lima, seq![VmEvent::Begin], VmEvent::Answer(true));
    vm_lemma_push(work, lima, seq![VmEvent::Begin], VmEvent::Answer(false));
    vm_lemma_push(work, lima, seq![VmEvent::Begin], VmEvent::Answer(false));
    vm_lemma_push(work, lima, seq![VmEvent::Begin].push(VmEvent::Answer(false)), VmEvent::Done);
    vm_lemma_push(work, lima, seq![VmEvent::Begin], VmEvent::Answer(true));
    vm_lemma_push(work, lima, seq![VmEvent::Begin].push(VmEvent::Answer(true)), VmEvent::Done);
    vm_lemma_push(work, lima, seq![VmEvent::Begin], VmEvent::Answer(true));
    vm_lemma_push(work, lima, seq![VmEvent::Begin].push(VmEvent::Answer(true)), VmEvent::Done);
    vm_lemma_push(work, lima, seq![VmEvent::Begin].push(VmEvent::Answer(true)).push(VmEvent::Done),
        VmEvent::Seen(o));
    vm_lemma_push(work, lima, seq![VmEvent::Begin], VmEvent::Answer(false));
    vm_lemma_push(work, lima, seq![VmEvent::Begin].push(VmEvent::Answer(false)), VmEvent::Done);
    vm_lemma_push(work, lima, seq![VmEvent::Begin].push(VmEvent::Answer(false)).push(VmEvent::Done),
        VmEvent::Done);
    vm_lemma_push(work, lima, seq![VmEvent::Begin], VmEvent::Answer(false));
    vm_lemma_push(work, lima, seq![VmEvent::Begin].push(VmEvent::Answer(false)), VmEvent::Done);
    vm_lemma_push(work, lima, seq![VmEvent::Begin].push(VmEvent::Answer(false)).push(VmEvent::Done),
        VmEvent::Done);
    vm_lemma_push(work, lima,
        seq![VmEvent::Begin].push(VmEvent::Answer(false)).push(VmEvent::Done).push(VmEvent::Done), VmEvent::Seen(o));
    reveal(vm_moved);
}

/// A VM is started only with its receipt, and the guest has to say that it is this computer's.
pub proof fn vms_are_started_with_their_receipt(work: VmWork, lima: bool)
    ensures
        work == VmWork::Start ==> vm_asked(work, lima, seq![VmEvent::Begin]) == (VmStep::Receipt),
        work == VmWork::Start
            ==> vm_asked(work, lima, seq![VmEvent::Begin].push(VmEvent::Answer(false)))
                == (VmStep::Finish(VmOutcome::Refused(VmRefusal::NoStartReceipt))),
        work == VmWork::Start
            ==> vm_asked(work, lima, seq![VmEvent::Begin].push(VmEvent::Answer(true)))
                == (VmStep::StartVm),
        work == VmWork::Start
            ==> vm_asked(work, lima,
                seq![VmEvent::Begin].push(VmEvent::Answer(true)).push(VmEvent::Done))
                    == (VmStep::VerifyOwner),
        work == VmWork::Start
            ==> vm_asked(work, lima,
                seq![VmEvent::Begin].push(VmEvent::Answer(true)).push(VmEvent::Done).push(VmEvent::Done)) == (VmStep::Finish(VmOutcome::Done)),
{
    let none = Seq::<VmEvent>::empty();
    assert(none.push(VmEvent::Begin) =~= seq![VmEvent::Begin]);
    vm_lemma_fresh(work, lima);
    vm_lemma_push(work, lima, none, VmEvent::Begin);
    vm_lemma_push(work, lima, seq![VmEvent::Begin], VmEvent::Answer(false));
    vm_lemma_push(work, lima, seq![VmEvent::Begin], VmEvent::Answer(true));
    vm_lemma_push(work, lima, seq![VmEvent::Begin], VmEvent::Answer(true));
    vm_lemma_push(work, lima, seq![VmEvent::Begin].push(VmEvent::Answer(true)), VmEvent::Done);
    vm_lemma_push(work, lima, seq![VmEvent::Begin], VmEvent::Answer(true));
    vm_lemma_push(work, lima, seq![VmEvent::Begin].push(VmEvent::Answer(true)), VmEvent::Done);
    vm_lemma_push(work, lima, seq![VmEvent::Begin].push(VmEvent::Answer(true)).push(VmEvent::Done),
        VmEvent::Done);
    reveal(vm_moved);
}

/// The resources, disks and provisioning of a VM change only with its receipt and while it
/// was seen at rest; disks and provisioning only where Lima runs it.
pub proof fn vms_change_at_rest(work: VmWork, lima: bool, o: Sight)
    ensures
        work == VmWork::Resize ==> vm_asked(work, lima, seq![VmEvent::Begin]) == (VmStep::Receipt),
        work == VmWork::Resize
            ==> vm_asked(work, lima, seq![VmEvent::Begin].push(VmEvent::Answer(false)))
                == (VmStep::Finish(VmOutcome::Refused(VmRefusal::NoResizeReceipt))),
        work == VmWork::Resize
            ==> vm_asked(work, lima, seq![VmEvent::Begin].push(VmEvent::Answer(true)))
                == (VmStep::Look),
        work == VmWork::Resize
            ==> vm_asked(work, lima,
                seq![VmEvent::Begin].push(VmEvent::Answer(true)).push(VmEvent::Seen(o)))
                    == (if o.installed
                        && !o.running { VmStep::ResizeVm } else { VmStep::Finish(VmOutcome::Refused(VmRefusal::ResizeNeedsStop)) }),
        work == VmWork::Resize && o.installed && !o.running
            ==> vm_asked(work, lima,
                seq![VmEvent::Begin].push(VmEvent::Answer(true)).push(VmEvent::Seen(o)).push(VmEvent::Done)) == (VmStep::Finish(VmOutcome::Done)),
        work == VmWork::Attach
            ==> vm_asked(work, lima, seq![VmEvent::Begin])
                == (if lima { VmStep::Receipt } else { VmStep::Finish(VmOutcome::Refused(VmRefusal::NoLimaReceipt)) }),
        work == VmWork::Attach && lima
            ==> vm_asked(work, lima, seq![VmEvent::Begin].push(VmEvent::Answer(false)))
                == (VmStep::Finish(VmOutcome::Refused(VmRefusal::NoLimaReceipt))),
        work == VmWork::Attach && lima
            ==> vm_asked(work, lima, seq![VmEvent::Begin].push(VmEvent::Answer(true)))
                == (VmStep::Look),
        work == VmWork::Attach && lima
            ==> vm_asked(work, lima,
                seq![VmEvent::Begin].push(VmEvent::Answer(true)).push(VmEvent::Seen(o)))
                    == (if o.stopped { VmStep::AttachDisks } else { VmStep::Finish(VmOutcome::Refused(VmRefusal::AttachmentNeedsStop)) }),
        work == VmWork::Attach && lima && o.stopped
            ==> vm_asked(work, lima,
                seq![VmEvent::Begin].push(VmEvent::Answer(true)).push(VmEvent::Seen(o)).push(VmEvent::Done)) == (VmStep::Finish(VmOutcome::Done)),
        work == VmWork::Provision
            ==> vm_asked(work, lima, seq![VmEvent::Begin])
                == (if lima { VmStep::Receipt } else { VmStep::Finish(VmOutcome::Refused(VmRefusal::NoLimaReceipt)) }),
        work == VmWork::Provision && lima
            ==> vm_asked(work, lima, seq![VmEvent::Begin].push(VmEvent::Answer(false)))
                == (VmStep::Finish(VmOutcome::Refused(VmRefusal::NoLimaReceipt))),
        work == VmWork::Provision && lima
            ==> vm_asked(work, lima, seq![VmEvent::Begin].push(VmEvent::Answer(true)))
                == (VmStep::ReadSaved),
        work == VmWork::Provision && lima
            ==> vm_asked(work, lima,
                seq![VmEvent::Begin].push(VmEvent::Answer(true)).push(VmEvent::Done))
                    == (VmStep::EditVm),
        work == VmWork::Provision && lima
            ==> vm_asked(work, lima,
                seq![VmEvent::Begin].push(VmEvent::Answer(true)).push(VmEvent::Done).push(VmEvent::Done)) == (VmStep::Finish(VmOutcome::Done)),
        work == VmWork::InspectSpace
            ==> vm_asked(work, lima, seq![VmEvent::Begin]) == (VmStep::Receipt),
        work == VmWork::InspectSpace
            ==> vm_asked(work, lima, seq![VmEvent::Begin].push(VmEvent::Answer(false)))
                == (VmStep::Finish(VmOutcome::Refused(VmRefusal::NoSpaceReceipt))),
        work == VmWork::InspectSpace
            ==> vm_asked(work, lima, seq![VmEvent::Begin].push(VmEvent::Answer(true)))
                == (VmStep::InspectSpace),
        work == VmWork::InspectSpace
            ==> vm_asked(work, lima,
                seq![VmEvent::Begin].push(VmEvent::Answer(true)).push(VmEvent::Done))
                    == (VmStep::Finish(VmOutcome::Done)),
{
    let none = Seq::<VmEvent>::empty();
    assert(none.push(VmEvent::Begin) =~= seq![VmEvent::Begin]);
    vm_lemma_fresh(work, lima);
    vm_lemma_push(work, lima, none, VmEvent::Begin);
    vm_lemma_push(work, lima, seq![VmEvent::Begin], VmEvent::Answer(false));
    vm_lemma_push(work, lima, seq![VmEvent::Begin], VmEvent::Answer(true));
    vm_lemma_push(work, lima, seq![VmEvent::Begin], VmEvent::Answer(true));
    vm_lemma_push(work, lima, seq![VmEvent::Begin].push(VmEvent::Answer(true)), VmEvent::Seen(o));
    vm_lemma_push(work, lima, seq![VmEvent::Begin], VmEvent::Answer(true));
    vm_lemma_push(work, lima, seq![VmEvent::Begin].push(VmEvent::Answer(true)), VmEvent::Seen(o));
    vm_lemma_push(work, lima,
        seq![VmEvent::Begin].push(VmEvent::Answer(true)).push(VmEvent::Seen(o)), VmEvent::Done);
    vm_lemma_push(work, lima, seq![VmEvent::Begin], VmEvent::Answer(false));
    vm_lemma_push(work, lima, seq![VmEvent::Begin], VmEvent::Answer(true));
    vm_lemma_push(work, lima, seq![VmEvent::Begin], VmEvent::Answer(true));
    vm_lemma_push(work, lima, seq![VmEvent::Begin].push(VmEvent::Answer(true)), VmEvent::Seen(o));
    vm_lemma_push(work, lima, seq![VmEvent::Begin], VmEvent::Answer(true));
    vm_lemma_push(work, lima, seq![VmEvent::Begin].push(VmEvent::Answer(true)), VmEvent::Seen(o));
    vm_lemma_push(work, lima,
        seq![VmEvent::Begin].push(VmEvent::Answer(true)).push(VmEvent::Seen(o)), VmEvent::Done);
    vm_lemma_push(work, lima, seq![VmEvent::Begin], VmEvent::Answer(false));
    vm_lemma_push(work, lima, seq![VmEvent::Begin], VmEvent::Answer(true));
    vm_lemma_push(work, lima, seq![VmEvent::Begin], VmEvent::Answer(true));
    vm_lemma_push(work, lima, seq![VmEvent::Begin].push(VmEvent::Answer(true)), VmEvent::Done);
    vm_lemma_push(work, lima, seq![VmEvent::Begin], VmEvent::Answer(true));
    vm_lemma_push(work, lima, seq![VmEvent::Begin].push(VmEvent::Answer(true)), VmEvent::Done);
    vm_lemma_push(work, lima, seq![VmEvent::Begin].push(VmEvent::Answer(true)).push(VmEvent::Done),
        VmEvent::Done);
    vm_lemma_push(work, lima, seq![VmEvent::Begin], VmEvent::Answer(false));
    vm_lemma_push(work, lima, seq![VmEvent::Begin], VmEvent::Answer(true));
    vm_lemma_push(work, lima, seq![VmEvent::Begin], VmEvent::Answer(true));
    vm_lemma_push(work, lima, seq![VmEvent::Begin].push(VmEvent::Answer(true)), VmEvent::Done);
    reveal(vm_moved);
}

/// A VM is deleted only with its receipt and once it was seen stopped, and its receipt
/// goes only once it was seen to be gone.
pub proof fn vms_are_removed_with_their_receipt(work: VmWork, lima: bool, o: Sight, p: Sight,
    here: bool)
    ensures
        work == VmWork::Remove ==> vm_asked(work, lima, seq![VmEvent::Begin]) == (VmStep::Receipt),
        work == VmWork::Remove
            ==> vm_asked(work, lima, seq![VmEvent::Begin].push(VmEvent::Answer(here)))
                == (VmStep::Look),
        work == VmWork::Remove && !o.installed
            ==> vm_asked(work, lima,
                seq![VmEvent::Begin].push(VmEvent::Answer(here)).push(VmEvent::Seen(o)))
                    == (if here { VmStep::RemoveReceipt } else { VmStep::Finish(VmOutcome::Done) }),
        work == VmWork::Remove && o.installed
            ==> vm_asked(work, lima,
                seq![VmEvent::Begin].push(VmEvent::Answer(false)).push(VmEvent::Seen(o)))
                    == (VmStep::Finish(VmOutcome::Refused(VmRefusal::NoRemovalReceipt))),
        work == VmWork::Remove && o.installed
            ==> vm_asked(work, lima,
                seq![VmEvent::Begin].push(VmEvent::Answer(true)).push(VmEvent::Seen(o)))
                    == (if o.stopped { VmStep::DeleteVm } else { VmStep::Finish(VmOutcome::Refused(VmRefusal::RemovalNeedsStop)) }),
        work == VmWork::Remove && o.installed && o.stopped
            ==> vm_asked(work, lima,
                seq![VmEvent::Begin].push(VmEvent::Answer(true)).push(VmEvent::Seen(o)).push(VmEvent::Done)) == (VmStep::Look),
        work == VmWork::Remove && o.installed && o.stopped
            ==> vm_asked(work, lima,
                seq![VmEvent::Begin].push(VmEvent::Answer(true)).push(VmEvent::Seen(o)).push(VmEvent::Done).push(VmEvent::Seen(p))) == (if p.installed { VmStep::Finish(VmOutcome::Refused(VmRefusal::NotRemoved)) } else { VmStep::RemoveReceipt }),
        work == VmWork::Remove && o.installed && o.stopped && !p.installed
            ==> vm_asked(work, lima,
                seq![VmEvent::Begin].push(VmEvent::Answer(true)).push(VmEvent::Seen(o)).push(VmEvent::Done).push(VmEvent::Seen(p)).push(VmEvent::Done)) == (VmStep::Finish(VmOutcome::Done)),
        work == VmWork::Remove && !o.installed
            ==> vm_asked(work, lima,
                seq![VmEvent::Begin].push(VmEvent::Answer(true)).push(VmEvent::Seen(o)).push(VmEvent::Done)) == (VmStep::Finish(VmOutcome::Done)),
{
    let none = Seq::<VmEvent>::empty();
    assert(none.push(VmEvent::Begin) =~= seq![VmEvent::Begin]);
    vm_lemma_fresh(work, lima);
    vm_lemma_push(work, lima, none, VmEvent::Begin);
    vm_lemma_push(work, lima, seq![VmEvent::Begin], VmEvent::Answer(here));
    vm_lemma_push(work, lima, seq![VmEvent::Begin], VmEvent::Answer(here));
    vm_lemma_push(work, lima, seq![VmEvent::Begin].push(VmEvent::Answer(here)), VmEvent::Seen(o));
    vm_lemma_push(work, lima, seq![VmEvent::Begin], VmEvent::Answer(false));
    vm_lemma_push(work, lima, seq![VmEvent::Begin].push(VmEvent::Answer(false)), VmEvent::Seen(o));
    vm_lemma_push(work, lima, seq![VmEvent::Begin], VmEvent::Answer(true));
    vm_lemma_push(work, lima, seq![VmEvent::Begin].push(VmEvent::Answer(true)), VmEvent::Seen(o));
    vm_lemma_push(work, lima, seq![VmEvent::Begin], VmEvent::Answer(true));
    vm_lemma_push(work, lima, seq![VmEvent::Begin].push(VmEvent::Answer(true)), VmEvent::Seen(o));
    vm_lemma_push(work, lima,
        seq![VmEvent::Begin].push(VmEvent::Answer(true)).push(VmEvent::Seen(o)), VmEvent::Done);
    vm_lemma_push(work, lima, seq![VmEvent::Begin], VmEvent::Answer(true));
    vm_lemma_push(work, lima, seq![VmEvent::Begin].push(VmEvent::Answer(true)), VmEvent::Seen(o));
    vm_lemma_push(work, lima,
        seq![VmEvent::Begin].push(VmEvent::Answer(true)).push(VmEvent::Seen(o)), VmEvent::Done);
    vm_lemma_push(work, lima,
        seq![VmEvent::Begin].push(VmEvent::Answer(true)).push(VmEvent::Seen(o)).push(VmEvent::Done), VmEvent::Seen(p));
    vm_lemma_push(work, lima, seq![VmEvent::Begin], VmEvent::Answer(true));
    vm_lemma_push(work, lima, seq![VmEvent::Begin].push(VmEvent::Answer(true)), VmEvent::Seen(o));
    vm_lemma_push(work, lima,
        seq![VmEvent::Begin].push(VmEvent::Answer(true)).push(VmEvent::Seen(o)), VmEvent::Done);
    vm_lemma_push(work, lima,
        seq![VmEvent::Begin].push(VmEvent::Answer(true)).push(VmEvent::Seen(o)).push(VmEvent::Done), VmEvent::Seen(p));
    vm_lemma_push(work, lima,
        seq![VmEvent::Begin].push(VmEvent::Answer(true)).push(VmEvent::Seen(o)).push(VmEvent::Done).push(VmEvent::Seen(p)), VmEvent::Done);
    vm_lemma_push(work, lima, seq![VmEvent::Begin], VmEvent::Answer(true));
    vm_lemma_push(work, lima, seq![VmEvent::Begin].push(VmEvent::Answer(true)), VmEvent::Seen(o));
    vm_lemma_push(work, lima,
        seq![VmEvent::Begin].push(VmEvent::Answer(true)).push(VmEvent::Seen(o)), VmEvent::Done);
    reveal(vm_moved);
}

/// A VM is made only where none is, after its configuration was written and its receipt
/// recorded, and the guest has to say that it is this computer's.
pub proof fn vms_are_made_once(work: VmWork, lima: bool, o: Sight)
    ensures
        work == VmWork::Make ==> vm_asked(work, lima, seq![VmEvent::Begin]) == (VmStep::Look),
        work == VmWork::Make && o.installed
            ==> vm_asked(work, lima, seq![VmEvent::Begin].push(VmEvent::Seen(o)))
                == (VmStep::Finish(VmOutcome::Refused(VmRefusal::AlreadyExists))),
        work == VmWork::Make && !o.installed
            ==> vm_asked(work, lima, seq![VmEvent::Begin].push(VmEvent::Seen(o)))
                == (VmStep::WriteConfiguration),
        work == VmWork::Make && !o.installed
            ==> vm_asked(work, lima,
                seq![VmEvent::Begin].push(VmEvent::Seen(o)).push(VmEvent::Done))
                    == (VmStep::RecordCreation),
        work == VmWork::Make && !o.installed
            ==> vm_asked(work, lima,
                seq![VmEvent::Begin].push(VmEvent::Seen(o)).push(VmEvent::Done).push(VmEvent::Done)) == (VmStep::MakeVm),
        work == VmWork::Make && !o.installed
            ==> vm_asked(work, lima,
                seq![VmEvent::Begin].push(VmEvent::Seen(o)).push(VmEvent::Done).push(VmEvent::Done).push(VmEvent::Done)) == (if lima { VmStep::VerifyOwner } else { VmStep::Guest(GuestTask::Initialize) }),
        work == VmWork::Make && !o.installed && lima
            ==> vm_asked(work, lima,
                seq![VmEvent::Begin].push(VmEvent::Seen(o)).push(VmEvent::Done).push(VmEvent::Done).push(VmEvent::Done).push(VmEvent::Done)) == (VmStep::Finish(VmOutcome::Done)),
        work == VmWork::Make && !o.installed && !lima
            ==> vm_asked(work, lima,
                seq![VmEvent::Begin].push(VmEvent::Seen(o)).push(VmEvent::Done).push(VmEvent::Done).push(VmEvent::Done).push(VmEvent::Done)) == (VmStep::VerifyOwner),
        work == VmWork::Make && !o.installed && !lima
            ==> vm_asked(work, lima,
                seq![VmEvent::Begin].push(VmEvent::Seen(o)).push(VmEvent::Done).push(VmEvent::Done).push(VmEvent::Done).push(VmEvent::Done).push(VmEvent::Done)) == (VmStep::Finish(VmOutcome::Done)),
{
    let none = Seq::<VmEvent>::empty();
    assert(none.push(VmEvent::Begin) =~= seq![VmEvent::Begin]);
    vm_lemma_fresh(work, lima);
    vm_lemma_push(work, lima, none, VmEvent::Begin);
    vm_lemma_push(work, lima, seq![VmEvent::Begin], VmEvent::Seen(o));
    vm_lemma_push(work, lima, seq![VmEvent::Begin], VmEvent::Seen(o));
    vm_lemma_push(work, lima, seq![VmEvent::Begin], VmEvent::Seen(o));
    vm_lemma_push(work, lima, seq![VmEvent::Begin].push(VmEvent::Seen(o)), VmEvent::Done);
    vm_lemma_push(work, lima, seq![VmEvent::Begin], VmEvent::Seen(o));
    vm_lemma_push(work, lima, seq![VmEvent::Begin].push(VmEvent::Seen(o)), VmEvent::Done);
    vm_lemma_push(work, lima, seq![VmEvent::Begin].push(VmEvent::Seen(o)).push(VmEvent::Done),
        VmEvent::Done);
    vm_lemma_push(work, lima, seq![VmEvent::Begin], VmEvent::Seen(o));
    vm_lemma_push(work, lima, seq![VmEvent::Begin].push(VmEvent::Seen(o)), VmEvent::Done);
    vm_lemma_push(work, lima, seq![VmEvent::Begin].push(VmEvent::Seen(o)).push(VmEvent::Done),
        VmEvent::Done);
    vm_lemma_push(work, lima,
        seq![VmEvent::Begin].push(VmEvent::Seen(o)).push(VmEvent::Done).push(VmEvent::Done), VmEvent::Done);
    vm_lemma_push(work, lima, seq![VmEvent::Begin], VmEvent::Seen(o));
    vm_lemma_push(work, lima, seq![VmEvent::Begin].push(VmEvent::Seen(o)), VmEvent::Done);
    vm_lemma_push(work, lima, seq![VmEvent::Begin].push(VmEvent::Seen(o)).push(VmEvent::Done),
        VmEvent::Done);
    vm_lemma_push(work, lima,
        seq![VmEvent::Begin].push(VmEvent::Seen(o)).push(VmEvent::Done).push(VmEvent::Done), VmEvent::Done);
    vm_lemma_push(work, lima,
        seq![VmEvent::Begin].push(VmEvent::Seen(o)).push(VmEvent::Done).push(VmEvent::Done).push(VmEvent::Done), VmEvent::Done);
    vm_lemma_push(work, lima, seq![VmEvent::Begin], VmEvent::Seen(o));
    vm_lemma_push(work, lima, seq![VmEvent::Begin].push(VmEvent::Seen(o)), VmEvent::Done);
    vm_lemma_push(work, lima, seq![VmEvent::Begin].push(VmEvent::Seen(o)).push(VmEvent::Done),
        VmEvent::Done);
    vm_lemma_push(work, lima,
        seq![VmEvent::Begin].push(VmEvent::Seen(o)).push(VmEvent::Done).push(VmEvent::Done), VmEvent::Done);
    vm_lemma_push(work, lima,
        seq![VmEvent::Begin].push(VmEvent::Seen(o)).push(VmEvent::Done).push(VmEvent::Done).push(VmEvent::Done), VmEvent::Done);
    vm_lemma_push(work, lima, seq![VmEvent::Begin], VmEvent::Seen(o));
    vm_lemma_push(work, lima, seq![VmEvent::Begin].push(VmEvent::Seen(o)), VmEvent::Done);
    vm_lemma_push(work, lima, seq![VmEvent::Begin].push(VmEvent::Seen(o)).push(VmEvent::Done),
        VmEvent::Done);
    vm_lemma_push(work, lima,
        seq![VmEvent::Begin].push(VmEvent::Seen(o)).push(VmEvent::Done).push(VmEvent::Done), VmEvent::Done);
    vm_lemma_push(work, lima,
        seq![VmEvent::Begin].push(VmEvent::Seen(o)).push(VmEvent::Done).push(VmEvent::Done).push(VmEvent::Done), VmEvent::Done);
    vm_lemma_push(work, lima,
        seq![VmEvent::Begin].push(VmEvent::Seen(o)).push(VmEvent::Done).push(VmEvent::Done).push(VmEvent::Done).push(VmEvent::Done), VmEvent::Done);
    reveal(vm_moved);
}

/// What is asked of a guest is asked once it said that it is this computer's.
pub proof fn guests_answer_to_their_owner(work: VmWork, lima: bool)
    ensures
        work == VmWork::InstallFiles
            ==> vm_asked(work, lima, seq![VmEvent::Begin]) == (VmStep::VerifyOwner),
        work == VmWork::InstallFiles
            ==> vm_asked(work, lima, seq![VmEvent::Begin].push(VmEvent::Done))
                == (VmStep::Guest(GuestTask::InstallFiles)),
        work == VmWork::InstallFiles
            ==> vm_asked(work, lima, seq![VmEvent::Begin].push(VmEvent::Done).push(VmEvent::Done))
                == (VmStep::Finish(VmOutcome::Done)),
        work == VmWork::CountWorkloads
            ==> vm_asked(work, lima, seq![VmEvent::Begin]) == (VmStep::VerifyOwner),
        work == VmWork::CountWorkloads
            ==> vm_asked(work, lima, seq![VmEvent::Begin].push(VmEvent::Done))
                == (VmStep::Guest(GuestTask::ListWorkloads)),
        work == VmWork::CountWorkloads
            ==> vm_asked(work, lima, seq![VmEvent::Begin].push(VmEvent::Done).push(VmEvent::Done))
                == (VmStep::Finish(VmOutcome::Done)),
        work == VmWork::InspectBackup
            ==> vm_asked(work, lima, seq![VmEvent::Begin]) == (VmStep::VerifyOwner),
        work == VmWork::InspectBackup
            ==> vm_asked(work, lima, seq![VmEvent::Begin].push(VmEvent::Done))
                == (VmStep::Guest(GuestTask::InspectBackup)),
        work == VmWork::InspectBackup
            ==> vm_asked(work, lima, seq![VmEvent::Begin].push(VmEvent::Done).push(VmEvent::Done))
                == (VmStep::Finish(VmOutcome::Done)),
        work == VmWork::ReadNode
            ==> vm_asked(work, lima, seq![VmEvent::Begin]) == (VmStep::VerifyOwner),
        work == VmWork::ReadNode
            ==> vm_asked(work, lima, seq![VmEvent::Begin].push(VmEvent::Done))
                == (VmStep::Guest(GuestTask::ReadNode)),
        work == VmWork::ReadNode
            ==> vm_asked(work, lima, seq![VmEvent::Begin].push(VmEvent::Done).push(VmEvent::Done))
                == (VmStep::Finish(VmOutcome::Done)),
        work == VmWork::ResetCredentials
            ==> vm_asked(work, lima, seq![VmEvent::Begin]) == (VmStep::VerifyOwner),
        work == VmWork::ResetCredentials
            ==> vm_asked(work, lima, seq![VmEvent::Begin].push(VmEvent::Done))
                == (VmStep::Guest(GuestTask::ResetCredentials)),
        work == VmWork::ResetCredentials
            ==> vm_asked(work, lima, seq![VmEvent::Begin].push(VmEvent::Done).push(VmEvent::Done))
                == (VmStep::Finish(VmOutcome::Done)),
        work == VmWork::UseStorage(false)
            ==> vm_asked(work, lima, seq![VmEvent::Begin]) == (VmStep::VerifyOwner),
        work == VmWork::UseStorage(false)
            ==> vm_asked(work, lima, seq![VmEvent::Begin].push(VmEvent::Done))
                == (VmStep::Guest(GuestTask::UsePool)),
        work == VmWork::UseStorage(false)
            ==> vm_asked(work, lima, seq![VmEvent::Begin].push(VmEvent::Done).push(VmEvent::Done))
                == (VmStep::Finish(VmOutcome::Done)),
        work == VmWork::RenewLease
            ==> vm_asked(work, lima, seq![VmEvent::Begin]) == (VmStep::VerifyOwner),
        work == VmWork::RenewLease
            ==> vm_asked(work, lima, seq![VmEvent::Begin].push(VmEvent::Done))
                == (VmStep::Guest(GuestTask::RenewLease)),
        work == VmWork::RenewLease
            ==> vm_asked(work, lima, seq![VmEvent::Begin].push(VmEvent::Done).push(VmEvent::Done))
                == (VmStep::Finish(VmOutcome::Done)),
{
    let none = Seq::<VmEvent>::empty();
    assert(none.push(VmEvent::Begin) =~= seq![VmEvent::Begin]);
    vm_lemma_fresh(work, lima);
    vm_lemma_push(work, lima, none, VmEvent::Begin);
    vm_lemma_push(work, lima, seq![VmEvent::Begin], VmEvent::Done);
    vm_lemma_push(work, lima, seq![VmEvent::Begin], VmEvent::Done);
    vm_lemma_push(work, lima, seq![VmEvent::Begin].push(VmEvent::Done), VmEvent::Done);
    vm_lemma_push(work, lima, seq![VmEvent::Begin], VmEvent::Done);
    vm_lemma_push(work, lima, seq![VmEvent::Begin], VmEvent::Done);
    vm_lemma_push(work, lima, seq![VmEvent::Begin].push(VmEvent::Done), VmEvent::Done);
    vm_lemma_push(work, lima, seq![VmEvent::Begin], VmEvent::Done);
    vm_lemma_push(work, lima, seq![VmEvent::Begin], VmEvent::Done);
    vm_lemma_push(work, lima, seq![VmEvent::Begin].push(VmEvent::Done), VmEvent::Done);
    vm_lemma_push(work, lima, seq![VmEvent::Begin], VmEvent::Done);
    vm_lemma_push(work, lima, seq![VmEvent::Begin], VmEvent::Done);
    vm_lemma_push(work, lima, seq![VmEvent::Begin].push(VmEvent::Done), VmEvent::Done);
    vm_lemma_push(work, lima, seq![VmEvent::Begin], VmEvent::Done);
    vm_lemma_push(work, lima, seq![VmEvent::Begin], VmEvent::Done);
    vm_lemma_push(work, lima, seq![VmEvent::Begin].push(VmEvent::Done), VmEvent::Done);
    vm_lemma_push(work, lima, seq![VmEvent::Begin], VmEvent::Done);
    vm_lemma_push(work, lima, seq![VmEvent::Begin], VmEvent::Done);
    vm_lemma_push(work, lima, seq![VmEvent::Begin].push(VmEvent::Done), VmEvent::Done);
    vm_lemma_push(work, lima, seq![VmEvent::Begin], VmEvent::Done);
    vm_lemma_push(work, lima, seq![VmEvent::Begin], VmEvent::Done);
    vm_lemma_push(work, lima, seq![VmEvent::Begin].push(VmEvent::Done), VmEvent::Done);
    reveal(vm_moved);
}

/// A guest is configured, or its data streamed, once its lease was renewed; the files that
/// the configuration needs are installed first.
pub proof fn guests_are_worked_on_under_a_lease(work: VmWork, lima: bool)
    ensures
        work == VmWork::Configure
            ==> vm_asked(work, lima, seq![VmEvent::Begin]) == (VmStep::VerifyOwner),
        work == VmWork::Configure
            ==> vm_asked(work, lima, seq![VmEvent::Begin].push(VmEvent::Done))
                == (VmStep::Guest(GuestTask::RenewLease)),
        work == VmWork::Configure
            ==> vm_asked(work, lima, seq![VmEvent::Begin].push(VmEvent::Done).push(VmEvent::Done))
                == (VmStep::Guest(GuestTask::InstallFiles)),
        work == VmWork::Configure
            ==> vm_asked(work, lima,
                seq![VmEvent::Begin].push(VmEvent::Done).push(VmEvent::Done).push(VmEvent::Done))
                    == (VmStep::Guest(GuestTask::Configure)),
        work == VmWork::Configure
            ==> vm_asked(work, lima,
                seq![VmEvent::Begin].push(VmEvent::Done).push(VmEvent::Done).push(VmEvent::Done).push(VmEvent::Done)) == (VmStep::Finish(VmOutcome::Done)),
        work == VmWork::StreamBackup
            ==> vm_asked(work, lima, seq![VmEvent::Begin]) == (VmStep::VerifyOwner),
        work == VmWork::StreamBackup
            ==> vm_asked(work, lima, seq![VmEvent::Begin].push(VmEvent::Done))
                == (VmStep::VerifyOwner),
        work == VmWork::StreamBackup
            ==> vm_asked(work, lima, seq![VmEvent::Begin].push(VmEvent::Done).push(VmEvent::Done))
                == (VmStep::Guest(GuestTask::RenewLease)),
        work == VmWork::StreamBackup
            ==> vm_asked(work, lima,
                seq![VmEvent::Begin].push(VmEvent::Done).push(VmEvent::Done).push(VmEvent::Done))
                    == (VmStep::Guest(GuestTask::StreamBackup)),
        work == VmWork::StreamBackup
            ==> vm_asked(work, lima,
                seq![VmEvent::Begin].push(VmEvent::Done).push(VmEvent::Done).push(VmEvent::Done).push(VmEvent::Done)) == (VmStep::Finish(VmOutcome::Done)),
{
    let none = Seq::<VmEvent>::empty();
    assert(none.push(VmEvent::Begin) =~= seq![VmEvent::Begin]);
    vm_lemma_fresh(work, lima);
    vm_lemma_push(work, lima, none, VmEvent::Begin);
    vm_lemma_push(work, lima, seq![VmEvent::Begin], VmEvent::Done);
    vm_lemma_push(work, lima, seq![VmEvent::Begin], VmEvent::Done);
    vm_lemma_push(work, lima, seq![VmEvent::Begin].push(VmEvent::Done), VmEvent::Done);
    vm_lemma_push(work, lima, seq![VmEvent::Begin], VmEvent::Done);
    vm_lemma_push(work, lima, seq![VmEvent::Begin].push(VmEvent::Done), VmEvent::Done);
    vm_lemma_push(work, lima, seq![VmEvent::Begin].push(VmEvent::Done).push(VmEvent::Done),
        VmEvent::Done);
    vm_lemma_push(work, lima, seq![VmEvent::Begin], VmEvent::Done);
    vm_lemma_push(work, lima, seq![VmEvent::Begin].push(VmEvent::Done), VmEvent::Done);
    vm_lemma_push(work, lima, seq![VmEvent::Begin].push(VmEvent::Done).push(VmEvent::Done),
        VmEvent::Done);
    vm_lemma_push(work, lima,
        seq![VmEvent::Begin].push(VmEvent::Done).push(VmEvent::Done).push(VmEvent::Done), VmEvent::Done);
    vm_lemma_push(work, lima, seq![VmEvent::Begin], VmEvent::Done);
    vm_lemma_push(work, lima, seq![VmEvent::Begin], VmEvent::Done);
    vm_lemma_push(work, lima, seq![VmEvent::Begin].push(VmEvent::Done), VmEvent::Done);
    vm_lemma_push(work, lima, seq![VmEvent::Begin], VmEvent::Done);
    vm_lemma_push(work, lima, seq![VmEvent::Begin].push(VmEvent::Done), VmEvent::Done);
    vm_lemma_push(work, lima, seq![VmEvent::Begin].push(VmEvent::Done).push(VmEvent::Done),
        VmEvent::Done);
    vm_lemma_push(work, lima, seq![VmEvent::Begin], VmEvent::Done);
    vm_lemma_push(work, lima, seq![VmEvent::Begin].push(VmEvent::Done), VmEvent::Done);
    vm_lemma_push(work, lima, seq![VmEvent::Begin].push(VmEvent::Done).push(VmEvent::Done),
        VmEvent::Done);
    vm_lemma_push(work, lima,
        seq![VmEvent::Begin].push(VmEvent::Done).push(VmEvent::Done).push(VmEvent::Done), VmEvent::Done);
    reveal(vm_moved);
}

/// The worker's service is stopped before its pool is used, and disabled for good before
/// its guest is made ready for a pool or brought to rest; a service that is not loaded
/// needs neither.
pub proof fn services_stop_before_their_storage_changes(work: VmWork, lima: bool, here: bool)
    ensures
        work == VmWork::UseStorage(true)
            ==> vm_asked(work, lima, seq![VmEvent::Begin]) == (VmStep::VerifyOwner),
        work == VmWork::UseStorage(true)
            ==> vm_asked(work, lima, seq![VmEvent::Begin].push(VmEvent::Done))
                == (VmStep::Guest(GuestTask::ServiceState)),
        work == VmWork::UseStorage(true)
            ==> vm_asked(work, lima,
                seq![VmEvent::Begin].push(VmEvent::Done).push(VmEvent::Answer(here)))
                    == (if here { VmStep::Guest(GuestTask::StopService) } else { VmStep::Guest(GuestTask::UsePool) }),
        work == VmWork::UseStorage(true)
            ==> vm_asked(work, lima,
                seq![VmEvent::Begin].push(VmEvent::Done).push(VmEvent::Answer(true)).push(VmEvent::Done)) == (VmStep::Guest(GuestTask::UsePool)),
        work == VmWork::UseStorage(true)
            ==> vm_asked(work, lima,
                seq![VmEvent::Begin].push(VmEvent::Done).push(VmEvent::Answer(true)).push(VmEvent::Done).push(VmEvent::Done)) == (VmStep::Finish(VmOutcome::Done)),
        work == VmWork::Quiesce
            ==> vm_asked(work, lima, seq![VmEvent::Begin]) == (VmStep::VerifyOwner),
        work == VmWork::Quiesce
            ==> vm_asked(work, lima, seq![VmEvent::Begin].push(VmEvent::Done))
                == (VmStep::Guest(GuestTask::ServiceState)),
        work == VmWork::Quiesce
            ==> vm_asked(work, lima,
                seq![VmEvent::Begin].push(VmEvent::Done).push(VmEvent::Answer(here)))
                    == (if here { VmStep::Guest(GuestTask::DisableService) } else { VmStep::Finish(VmOutcome::Done) }),
        work == VmWork::Quiesce
            ==> vm_asked(work, lima,
                seq![VmEvent::Begin].push(VmEvent::Done).push(VmEvent::Answer(true)).push(VmEvent::Done)) == (VmStep::Finish(VmOutcome::Done)),
        work == VmWork::PrepareStorage
            ==> vm_asked(work, lima, seq![VmEvent::Begin]) == (VmStep::VerifyOwner),
        work == VmWork::PrepareStorage
            ==> vm_asked(work, lima, seq![VmEvent::Begin].push(VmEvent::Done))
                == (VmStep::Guest(GuestTask::RenewLease)),
        work == VmWork::PrepareStorage
            ==> vm_asked(work, lima, seq![VmEvent::Begin].push(VmEvent::Done).push(VmEvent::Done))
                == (VmStep::VerifyOwner),
        work == VmWork::PrepareStorage
            ==> vm_asked(work, lima,
                seq![VmEvent::Begin].push(VmEvent::Done).push(VmEvent::Done).push(VmEvent::Done))
                    == (VmStep::Guest(GuestTask::InstallFiles)),
        work == VmWork::PrepareStorage
            ==> vm_asked(work, lima,
                seq![VmEvent::Begin].push(VmEvent::Done).push(VmEvent::Done).push(VmEvent::Done).push(VmEvent::Done)) == (VmStep::VerifyOwner),
        work == VmWork::PrepareStorage
            ==> vm_asked(work, lima,
                seq![VmEvent::Begin].push(VmEvent::Done).push(VmEvent::Done).push(VmEvent::Done).push(VmEvent::Done).push(VmEvent::Done)) == (VmStep::Guest(GuestTask::ServiceState)),
        work == VmWork::PrepareStorage
            ==> vm_asked(work, lima,
                seq![VmEvent::Begin].push(VmEvent::Done).push(VmEvent::Done).push(VmEvent::Done).push(VmEvent::Done).push(VmEvent::Done).push(VmEvent::Answer(here))) == (if here { VmStep::Guest(GuestTask::DisableService) } else { VmStep::Guest(GuestTask::InstallPackages) }),
        work == VmWork::PrepareStorage
            ==> vm_asked(work, lima,
                seq![VmEvent::Begin].push(VmEvent::Done).push(VmEvent::Done).push(VmEvent::Done).push(VmEvent::Done).push(VmEvent::Done).push(VmEvent::Answer(true)).push(VmEvent::Done)) == (VmStep::Guest(GuestTask::InstallPackages)),
        work == VmWork::PrepareStorage
            ==> vm_asked(work, lima,
                seq![VmEvent::Begin].push(VmEvent::Done).push(VmEvent::Done).push(VmEvent::Done).push(VmEvent::Done).push(VmEvent::Done).push(VmEvent::Answer(true)).push(VmEvent::Done).push(VmEvent::Done)) == (VmStep::Finish(VmOutcome::Done)),
{
    let none = Seq::<VmEvent>::empty();
    assert(none.push(VmEvent::Begin) =~= seq![VmEvent::Begin]);
    vm_lemma_fresh(work, lima);
    vm_lemma_push(work, lima, none, VmEvent::Begin);
    vm_lemma_push(work, lima, seq![VmEvent::Begin], VmEvent::Done);
    vm_lemma_push(work, lima, seq![VmEvent::Begin], VmEvent::Done);
    vm_lemma_push(work, lima, seq![VmEvent::Begin].push(VmEvent::Done), VmEvent::Answer(here));
    vm_lemma_push(work, lima, seq![VmEvent::Begin], VmEvent::Done);
    vm_lemma_push(work, lima, seq![VmEvent::Begin].push(VmEvent::Done), VmEvent::Answer(true));
    vm_lemma_push(work, lima, seq![VmEvent::Begin].push(VmEvent::Done).push(VmEvent::Answer(true)),
        VmEvent::Done);
    vm_lemma_push(work, lima, seq![VmEvent::Begin], VmEvent::Done);
    vm_lemma_push(work, lima, seq![VmEvent::Begin].push(VmEvent::Done), VmEvent::Answer(true));
    vm_lemma_push(work, lima, seq![VmEvent::Begin].push(VmEvent::Done).push(VmEvent::Answer(true)),
        VmEvent::Done);
    vm_lemma_push(work, lima,
        seq![VmEvent::Begin].push(VmEvent::Done).push(VmEvent::Answer(true)).push(VmEvent::Done), VmEvent::Done);
    vm_lemma_push(work, lima, seq![VmEvent::Begin], VmEvent::Done);
    vm_lemma_push(work, lima, seq![VmEvent::Begin], VmEvent::Done);
    vm_lemma_push(work, lima, seq![VmEvent::Begin].push(VmEvent::Done), VmEvent::Answer(here));
    vm_lemma_push(work, lima, seq![VmEvent::Begin], VmEvent::Done);
    vm_lemma_push(work, lima, seq![VmEvent::Begin].push(VmEvent::Done), VmEvent::Answer(true));
    vm_lemma_push(work, lima, seq![VmEvent::Begin].push(VmEvent::Done).push(VmEvent::Answer(true)),
        VmEvent::Done);
    vm_lemma_push(work, lima, seq![VmEvent::Begin], VmEvent::Done);
    vm_lemma_push(work, lima, seq![VmEvent::Begin], VmEvent::Done);
    vm_lemma_push(work, lima, seq![VmEvent::Begin].push(VmEvent::Done), VmEvent::Done);
    vm_lemma_push(work, lima, seq![VmEvent::Begin], VmEvent::Done);
    vm_lemma_push(work, lima, seq![VmEvent::Begin].push(VmEvent::Done), VmEvent::Done);
    vm_lemma_push(work, lima, seq![VmEvent::Begin].push(VmEvent::Done).push(VmEvent::Done),
        VmEvent::Done);
    vm_lemma_push(work, lima, seq![VmEvent::Begin], VmEvent::Done);
    vm_lemma_push(work, lima, seq![VmEvent::Begin].push(VmEvent::Done), VmEvent::Done);
    vm_lemma_push(work, lima, seq![VmEvent::Begin].push(VmEvent::Done).push(VmEvent::Done),
        VmEvent::Done);
    vm_lemma_push(work, lima,
        seq![VmEvent::Begin].push(VmEvent::Done).push(VmEvent::Done).push(VmEvent::Done), VmEvent::Done);
    vm_lemma_push(work, lima, seq![VmEvent::Begin], VmEvent::Done);
    vm_lemma_push(work, lima, seq![VmEvent::Begin].push(VmEvent::Done), VmEvent::Done);
    vm_lemma_push(work, lima, seq![VmEvent::Begin].push(VmEvent::Done).push(VmEvent::Done),
        VmEvent::Done);
    vm_lemma_push(work, lima,
        seq![VmEvent::Begin].push(VmEvent::Done).push(VmEvent::Done).push(VmEvent::Done), VmEvent::Done);
    vm_lemma_push(work, lima,
        seq![VmEvent::Begin].push(VmEvent::Done).push(VmEvent::Done).push(VmEvent::Done).push(VmEvent::Done), VmEvent::Done);
    vm_lemma_push(work, lima, seq![VmEvent::Begin], VmEvent::Done);
    vm_lemma_push(work, lima, seq![VmEvent::Begin].push(VmEvent::Done), VmEvent::Done);
    vm_lemma_push(work, lima, seq![VmEvent::Begin].push(VmEvent::Done).push(VmEvent::Done),
        VmEvent::Done);
    vm_lemma_push(work, lima,
        seq![VmEvent::Begin].push(VmEvent::Done).push(VmEvent::Done).push(VmEvent::Done), VmEvent::Done);
    vm_lemma_push(work, lima,
        seq![VmEvent::Begin].push(VmEvent::Done).push(VmEvent::Done).push(VmEvent::Done).push(VmEvent::Done), VmEvent::Done);
    vm_lemma_push(work, lima,
        seq![VmEvent::Begin].push(VmEvent::Done).push(VmEvent::Done).push(VmEvent::Done).push(VmEvent::Done).push(VmEvent::Done), VmEvent::Answer(here));
    vm_lemma_push(work, lima, seq![VmEvent::Begin], VmEvent::Done);
    vm_lemma_push(work, lima, seq![VmEvent::Begin].push(VmEvent::Done), VmEvent::Done);
    vm_lemma_push(work, lima, seq![VmEvent::Begin].push(VmEvent::Done).push(VmEvent::Done),
        VmEvent::Done);
    vm_lemma_push(work, lima,
        seq![VmEvent::Begin].push(VmEvent::Done).push(VmEvent::Done).push(VmEvent::Done), VmEvent::Done);
    vm_lemma_push(work, lima,
        seq![VmEvent::Begin].push(VmEvent::Done).push(VmEvent::Done).push(VmEvent::Done).push(VmEvent::Done), VmEvent::Done);
    vm_lemma_push(work, lima,
        seq![VmEvent::Begin].push(VmEvent::Done).push(VmEvent::Done).push(VmEvent::Done).push(VmEvent::Done).push(VmEvent::Done), VmEvent::Answer(true));
    vm_lemma_push(work, lima,
        seq![VmEvent::Begin].push(VmEvent::Done).push(VmEvent::Done).push(VmEvent::Done).push(VmEvent::Done).push(VmEvent::Done).push(VmEvent::Answer(true)), VmEvent::Done);
    vm_lemma_push(work, lima, seq![VmEvent::Begin], VmEvent::Done);
    vm_lemma_push(work, lima, seq![VmEvent::Begin].push(VmEvent::Done), VmEvent::Done);
    vm_lemma_push(work, lima, seq![VmEvent::Begin].push(VmEvent::Done).push(VmEvent::Done),
        VmEvent::Done);
    vm_lemma_push(work, lima,
        seq![VmEvent::Begin].push(VmEvent::Done).push(VmEvent::Done).push(VmEvent::Done), VmEvent::Done);
    vm_lemma_push(work, lima,
        seq![VmEvent::Begin].push(VmEvent::Done).push(VmEvent::Done).push(VmEvent::Done).push(VmEvent::Done), VmEvent::Done);
    vm_lemma_push(work, lima,
        seq![VmEvent::Begin].push(VmEvent::Done).push(VmEvent::Done).push(VmEvent::Done).push(VmEvent::Done).push(VmEvent::Done), VmEvent::Answer(true));
    vm_lemma_push(work, lima,
        seq![VmEvent::Begin].push(VmEvent::Done).push(VmEvent::Done).push(VmEvent::Done).push(VmEvent::Done).push(VmEvent::Done).push(VmEvent::Answer(true)), VmEvent::Done);
    vm_lemma_push(work, lima,
        seq![VmEvent::Begin].push(VmEvent::Done).push(VmEvent::Done).push(VmEvent::Done).push(VmEvent::Done).push(VmEvent::Done).push(VmEvent::Answer(true)).push(VmEvent::Done), VmEvent::Done);
    reveal(vm_moved);
}

/// An operation ends at a step that fails.
pub proof fn failed_operations_end(x: VmRun)
    ensures
        vm_after(x, VmEvent::Failed).1 == VmStep::Finish(VmOutcome::Failed),
{
}

/// How long a step may take: looks are short, and a VM that is made, a guest that is
/// configured and a pool that is worked on get their time.
pub proof fn steps_have_their_time(work: VmWork)
    ensures
        seconds_allowed(work, VmStep::Look) == 15,
        seconds_allowed(work, VmStep::VerifyOwner) == 15,
        seconds_allowed(work, VmStep::MakeVm) == 1200,
        seconds_allowed(work, VmStep::StartVm) == 600,
        seconds_allowed(work, VmStep::StopVm) == 60,
        seconds_allowed(work, VmStep::ReadSaved) == 30,
        seconds_allowed(work, VmStep::Guest(GuestTask::RenewLease)) == 15,
        seconds_allowed(work, VmStep::Guest(GuestTask::ServiceState)) == 15,
        seconds_allowed(work, VmStep::Guest(GuestTask::ListWorkloads)) == 20,
        seconds_allowed(work, VmStep::Guest(GuestTask::StopService)) == 120,
        seconds_allowed(work, VmStep::Guest(GuestTask::DisableService)) == 120,
        seconds_allowed(work, VmStep::Guest(GuestTask::Initialize)) == 180,
        seconds_allowed(work, VmStep::Guest(GuestTask::InstallPackages)) == 600,
        seconds_allowed(work, VmStep::Guest(GuestTask::Configure)) == 600,
        seconds_allowed(work, VmStep::Guest(GuestTask::UsePool)) == 1800,
        seconds_allowed(work, VmStep::Guest(GuestTask::InspectBackup)) == 1800,
        seconds_allowed(work, VmStep::Guest(GuestTask::InstallFiles)) == if work
            == VmWork::Configure {
            30u64
        } else {
            60u64
        },
{
}

} // verus!
