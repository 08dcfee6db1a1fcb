//! What every accepted plan of worker disks keeps to, and when a plan is owed.
use crate::host_paths::host_within;
use crate::identity;
use crate::storage::{has_id, lemma_rank, rank, resolved_directory, LocationView, SelectionView};
use crate::storage_plan::{
    already_kept, claim_of, claimed_total, claims_upto, credited_bytes, drawn, leaves_reserve,
    overlaps, plan_claims, plan_leaves_every_pool_its_reserve, pool_need, pool_room,
    volume_of, within_reserve, ClaimView, PlanInput, Probe, Sighting,
};
use crate::text;
use vstd::prelude::*;
use vstd::utf8::encode_utf8;

verus! {

/// The sum of what the claims from the first on take from a pool.
pub open spec fn taken(claims: Seq<ClaimView>, pool: Seq<char>) -> int
    decreases claims.len(),
{
    if claims.len() == 0 {
        0
    } else {
        (if claims.first().pool == pool {
            claims.first().needed_gib as int
        } else {
            0
        }) + taken(claims.drop_first(), pool)
    }
}

/// Whether the disk of a claim stays where a disk of its identity was.
pub open spec fn stays(previous: Seq<LocationView>, claim: ClaimView) -> bool {
    exists|p: int|
        0 <= p < previous.len() && claim.kept == Some((#[trigger] previous[p]).id)
            && previous[p].directory == claim.directory && previous[p].volume_id
            == claim.volume_id
}

/// The sum of the allocations in a pool that are new or have moved.
pub open spec fn placed_anew(
    previous: Seq<LocationView>,
    claims: Seq<ClaimView>,
    pool: Seq<char>,
) -> int
    decreases claims.len(),
{
    if claims.len() == 0 {
        0
    } else {
        (if claims.first().pool == pool && !stays(previous, claims.first()) {
            claims.first().allocation_gib as int
        } else {
            0
        }) + placed_anew(previous, claims.drop_first(), pool)
    }
}

proof fn lemma_taken_push(claims: Seq<ClaimView>, c: ClaimView, pool: Seq<char>)
    ensures
        taken(claims.push(c), pool) == taken(claims, pool) + (if c.pool == pool {
            c.needed_gib as int
        } else {
            0
        }),
    decreases claims.len(),
{
    let now = claims.push(c);
    if claims.len() == 0 {
        assert(now.drop_first() =~= Seq::empty());
        assert(taken(now.drop_first(), pool) == 0);
    } else {
        assert(now.first() == claims.first());
        assert(now.drop_first() =~= claims.drop_first().push(c));
        lemma_taken_push(claims.drop_first(), c, pool);
    }
}

proof fn lemma_taken_is_the_need(claims: Seq<ClaimView>, pool: Seq<char>)
    ensures
        taken(claims, pool) == pool_need(claims, pool),
    decreases claims.len(),
{
    if claims.len() > 0 {
        lemma_taken_is_the_need(claims.drop_last(), pool);
        lemma_taken_push(claims.drop_last(), claims.last(), pool);
        assert(claims =~= claims.drop_last().push(claims.last()));
    }
}

proof fn lemma_anew_is_taken(previous: Seq<LocationView>, claims: Seq<ClaimView>, pool: Seq<char>)
    requires
        forall|i: int|
            0 <= i < claims.len() && !stays(previous, #[trigger] claims[i])
                ==> claims[i].needed_gib == claims[i].allocation_gib,
    ensures
        placed_anew(previous, claims, pool) <= taken(claims, pool),
    decreases claims.len(),
{
    if claims.len() > 0 {
        let rest = claims.drop_first();
        assert forall|i: int|
            0 <= i < rest.len() && !stays(previous, #[trigger] rest[i]) implies rest[i].needed_gib
            == rest[i].allocation_gib by {
            assert(rest[i] == claims[i + 1]);
        }
        lemma_anew_is_taken(previous, rest, pool);
        assert(claims.first() == claims[0]);
    }
}

proof fn lemma_credit(credits: Seq<(String, u64)>, id: Seq<char>, i: int)
    requires
        0 <= i <= credits.len(),
    ensures
        credited_bytes(credits, id, i) == 0 || exists|k: int|
            i <= k < credits.len() && (#[trigger] credits[k]).0@ == id && credits[k].1
                == credited_bytes(credits, id, i),
    decreases credits.len() - i,
{
    if i < credits.len() && credits[i].0@ != id {
        lemma_credit(credits, id, i + 1);
    }
}

proof fn lemma_stays(previous: Seq<LocationView>, credits: Seq<(String, u64)>, selection: SelectionView, path: Seq<char>, volume: crate::storage::VolumeView)
    ensures
        ({
            let c = claim_of(previous, credits, selection, path, volume);
            &&& !stays(previous, c) ==> c.needed_gib == c.allocation_gib
            &&& c.needed_gib == c.allocation_gib || exists|k: int|
                0 <= k < credits.len() && c.kept == Some((#[trigger] credits[k]).0@)
                    && c.needed_gib + credits[k].1 / 1_073_741_824 >= c.allocation_gib
        }),
{
    let c = claim_of(previous, credits, selection, path, volume);
    if selection.id is Some {
        let id = selection.id->0;
        lemma_rank(previous, id, 0);
        lemma_credit(credits, id, 0);
        if has_id(previous, id) {
            let r = rank(previous, id);
            if r < previous.len() {
                assert(previous[r].id == id);
            }
        }
    }
}

/// What a plan needs of its pools, exactly. A disk that is new, or is not where a disk
/// of its identity was before, takes its whole allocation; one that stays may be spared
/// only what its own image takes already. Together the disks of a pool leave ten GiB
/// free on every one of its volumes that they stand on, and so do all that are new or
/// have moved.
pub proof fn plans_take_only_free_space(
    input: PlanInput,
    selections: Seq<SelectionView>,
    sightings: Seq<Sighting>,
    n: int,
)
    requires
        0 <= n <= selections.len(),
    ensures
        claims_upto(input, selections, sightings, n) matches Ok(claims) ==> {
            &&& claims.len() == n
            &&& forall|i: int|
                0 <= i < n ==> {
                    let c = #[trigger] claims[i];
                    &&& c.allocation_gib == selections[i].allocation_gib
                    &&& c.kept == selections[i].id
                    &&& !stays(input.previous, c) ==> c.needed_gib == c.allocation_gib
                    &&& c.needed_gib == c.allocation_gib || exists|k: int|
                        0 <= k < input.credits.len() && c.kept == Some(
                            (#[trigger] input.credits[k]).0@,
                        ) && c.needed_gib + input.credits[k].1 / 1_073_741_824
                            >= c.allocation_gib
                    &&& taken(claims, c.pool) <= (if c.available_gib < 10 {
                        0
                    } else {
                        c.available_gib - 10
                    })
                    &&& placed_anew(input.previous, claims, c.pool) <= (if c.available_gib < 10 {
                        0
                    } else {
                        c.available_gib - 10
                    })
                }
        },
    decreases n,
{
    if n > 0 && claims_upto(input, selections, sightings, n) is Ok {
        plans_take_only_free_space(input, selections, sightings, n - 1);
        plan_leaves_every_pool_its_reserve(input, selections, sightings, n);
        let before = claims_upto(input, selections, sightings, n - 1)->Ok_0;
        let claims = claims_upto(input, selections, sightings, n)->Ok_0;
        let s = selections[n - 1];
        let seen = sightings[n - 1];
        assert(claims == before.push(claims.last()));
        let path = resolved_directory(input.mounts.platform@, s.directory, seen.seen)->Ok_0;
        let v = volume_of(input, path, seen.native_volume)->0;
        assert(claims.last() == claim_of(
            input.previous,
            input.credits,
            s,
            path,
            input.volumes[v],
        ));
        lemma_stays(input.previous, input.credits, s, path, input.volumes[v]);
        assert forall|i: int| 0 <= i < n implies {
            let c = #[trigger] claims[i];
            &&& c.allocation_gib == selections[i].allocation_gib
            &&& c.kept == selections[i].id
            &&& !stays(input.previous, c) ==> c.needed_gib == c.allocation_gib
            &&& c.needed_gib == c.allocation_gib || exists|k: int|
                0 <= k < input.credits.len() && c.kept == Some((#[trigger] input.credits[k]).0@)
                    && c.needed_gib + input.credits[k].1 / 1_073_741_824 >= c.allocation_gib
        } by {
            if i < n - 1 {
                assert(claims[i] == before[i]);
            }
        }
        assert forall|i: int| 0 <= i < n implies {
            let c = #[trigger] claims[i];
            &&& taken(claims, c.pool) <= (if c.available_gib < 10 {
                0
            } else {
                c.available_gib - 10
            })
            &&& placed_anew(input.previous, claims, c.pool) <= (if c.available_gib < 10 {
                0
            } else {
                c.available_gib - 10
            })
        } by {
            let c = claims[i];
            assert(within_reserve(claims, i));
            lemma_taken_is_the_need(claims, c.pool);
            lemma_anew_is_taken(input.previous, claims, c.pool);
        }
    }
}

/// Every disk of an accepted plan stands in the folder that was selected for it, as it
/// resolves, on the volume that the folder is on: one that is eligible, with a
/// filesystem that can hold it and an identity. Its folder can be written, and its size
/// is within the limits.
pub proof fn planned_disks_stand_on_their_volumes(
    input: PlanInput,
    selections: Seq<SelectionView>,
    sightings: Seq<Sighting>,
    n: int,
)
    requires
        0 <= n <= selections.len(),
    ensures
        claims_upto(input, selections, sightings, n) matches Ok(claims) ==> claims.len() == n
            && forall|i: int|
            0 <= i < n ==> {
                let c = #[trigger] claims[i];
                let v = volume_of(input, c.directory, sightings[i].native_volume);
                let volume = input.volumes[v->0];
                let name = text::ascii_lower(volume.filesystem);
                &&& resolved_directory(
                    input.mounts.platform@,
                    selections[i].directory,
                    sightings[i].seen,
                ) == Ok::<Seq<char>, Seq<char>>(c.directory)
                &&& v is Some
                &&& c.volume_id == volume.id && c.volume_id.len() > 0
                &&& c.pool == volume.capacity_pool && c.pool.len() > 0
                &&& c.available_gib == volume.available_gib
                &&& volume.eligible
                &&& name == "apfs"@ || name == "ext4"@ || name == "xfs"@
                &&& 1 <= c.allocation_gib <= 1_048_576
                &&& encode_utf8(selections[i].directory).len() <= 4096
                &&& sightings[i].probe == Probe::Writable
            },
    decreases n,
{
    if n > 0 && claims_upto(input, selections, sightings, n) is Ok {
        planned_disks_stand_on_their_volumes(input, selections, sightings, n - 1);
        let before = claims_upto(input, selections, sightings, n - 1)->Ok_0;
        let claims = claims_upto(input, selections, sightings, n)->Ok_0;
        assert(claims == before.push(claims.last()));
        assert forall|i: int| 0 <= i < n - 1 implies #[trigger] claims[i] == before[i] by {}
    }
}

proof fn lemma_room(claims: Seq<ClaimView>, pool: Seq<char>, space: u64)
    ensures
        pool_room(claims, pool, space) == space || exists|i: int|
            0 <= i < claims.len() && (#[trigger] claims[i]).pool == pool
                && claims[i].available_gib == pool_room(claims, pool, space),
    decreases claims.len(),
{
    if claims.len() > 0 {
        let less = claims.drop_last();
        lemma_room(less, pool, space);
        let room = pool_room(claims, pool, space);
        if claims.last().pool == pool && claims.last().available_gib < pool_room(less, pool, space) {
            assert(claims[claims.len() - 1] == claims.last());
        } else if room != space {
            let i = choose|i: int|
                0 <= i < less.len() && (#[trigger] less[i]).pool == pool && less[i].available_gib
                    == pool_room(less, pool, space);
            assert(claims[i] == less[i]);
        }
    }
}

/// A selection that fits is accepted: a folder that resolves, overlaps none of the
/// others and can be written, on an eligible volume with room for the whole allocation
/// beside what the others take and ten GiB, and a disk identity that is new or known and
/// selected once.
pub proof fn fitting_selections_are_accepted(
    input: PlanInput,
    selections: Seq<SelectionView>,
    sightings: Seq<Sighting>,
    n: int,
    v: int,
)
    requires
        0 < n <= selections.len(),
        claims_upto(input, selections, sightings, n - 1) is Ok,
        ({
            let claims = claims_upto(input, selections, sightings, n - 1)->Ok_0;
            let s = selections[n - 1];
            let path = resolved_directory(
                input.mounts.platform@,
                s.directory,
                sightings[n - 1].seen,
            );
            let volume = input.volumes[v];
            let name = text::ascii_lower(volume.filesystem);
            &&& 1 <= s.allocation_gib <= 1_048_576
            &&& encode_utf8(s.directory).len() <= 4096
            &&& path is Ok
            &&& forall|i: int|
                0 <= i < claims.len() ==> !host_within(
                    input.mounts.platform@,
                    path->Ok_0,
                    (#[trigger] claims[i]).directory,
                ) && !host_within(input.mounts.platform@, claims[i].directory, path->Ok_0)
                    && (s.id is Some ==> claims[i].kept != s.id)
            &&& volume_of(input, path->Ok_0, sightings[n - 1].native_volume) == Some(v)
            &&& volume.eligible
            &&& name == "apfs"@ || name == "ext4"@ || name == "xfs"@
            &&& volume.id.len() > 0 && volume.capacity_pool.len() > 0
            &&& s.id is Some ==> exists|p: int|
                0 <= p < input.previous.len() && (#[trigger] input.previous[p]).id == s.id->0
            &&& taken(claims, volume.capacity_pool) + s.allocation_gib + 10
                <= volume.available_gib
            &&& forall|i: int|
                0 <= i < claims.len() && (#[trigger] claims[i]).pool == volume.capacity_pool
                    ==> taken(claims, volume.capacity_pool) + s.allocation_gib + 10
                    <= claims[i].available_gib
            &&& sightings[n - 1].probe == Probe::Writable
        }),
    ensures
        claims_upto(input, selections, sightings, n) is Ok,
{
    let claims = claims_upto(input, selections, sightings, n - 1)->Ok_0;
    let s = selections[n - 1];
    let path = resolved_directory(
        input.mounts.platform@,
        s.directory,
        sightings[n - 1].seen,
    )->Ok_0;
    let volume = input.volumes[v];
    let c = claim_of(input.previous, input.credits, s, path, volume);
    assert(!overlaps(input.mounts.platform@, claims, path));
    if s.id is Some {
        assert(!already_kept(claims, s.id->0));
        assert(has_id(input.previous, s.id->0));
    }
    lemma_taken_is_the_need(claims, volume.capacity_pool);
    lemma_room(claims, volume.capacity_pool, volume.available_gib);
    assert(c.needed_gib <= s.allocation_gib);
    assert(leaves_reserve(claims, c));
}

/// A plan is accepted exactly when it selects at most sixteen disks, each is accepted
/// after the ones before it, and together they have at least fifteen GiB.
pub proof fn plans_have_a_least_size(
    input: PlanInput,
    selections: Seq<SelectionView>,
    sightings: Seq<Sighting>,
)
    ensures
        plan_claims(input, selections, sightings) matches Ok(claims) ==> selections.len() <= 16
            && claims_upto(input, selections, sightings, selections.len() as int) == Ok::<
            Seq<ClaimView>,
            Seq<char>,
        >(claims) && granted(claims) >= 15,
        selections.len() <= 16 && (claims_upto(
            input,
            selections,
            sightings,
            selections.len() as int,
        ) matches Ok(claims) && granted(claims) >= 15) ==> plan_claims(
            input,
            selections,
            sightings,
        ) is Ok,
{
    if let Ok(claims) = claims_upto(input, selections, sightings, selections.len() as int) {
        lemma_granted(claims);
    }
}

/// The sum of the allocations of claims.
pub open spec fn granted(claims: Seq<ClaimView>) -> int
    decreases claims.len(),
{
    if claims.len() == 0 {
        0
    } else {
        claims.first().allocation_gib + granted(claims.drop_first())
    }
}

proof fn lemma_granted_push(claims: Seq<ClaimView>, c: ClaimView)
    ensures
        granted(claims.push(c)) == granted(claims) + c.allocation_gib,
    decreases claims.len(),
{
    let now = claims.push(c);
    if claims.len() == 0 {
        assert(now.drop_first() =~= Seq::empty());
        assert(granted(now.drop_first()) == 0);
    } else {
        assert(now.first() == claims.first());
        assert(now.drop_first() =~= claims.drop_first().push(c));
        lemma_granted_push(claims.drop_first(), c);
    }
}

proof fn lemma_granted(claims: Seq<ClaimView>)
    ensures
        granted(claims) == claimed_total(claims),
    decreases claims.len(),
{
    if claims.len() > 0 {
        lemma_granted(claims.drop_last());
        lemma_granted_push(claims.drop_last(), claims.last());
        assert(claims =~= claims.drop_last().push(claims.last()));
    }
}

/// The disks of a plan are those of its claims: a kept disk keeps its identity, and each
/// has the place and the size that were claimed for it.
pub proof fn drawn_disks_are_the_claimed_ones(claims: Seq<ClaimView>, fresh: Seq<u128>, i: int)
    requires
        fresh.len() == claims.len(),
        0 <= i < claims.len(),
    ensures
        ({
            let d = drawn(claims, fresh);
            &&& d.len() == claims.len()
            &&& claims[i].kept matches Some(id) ==> d[i].id == id
            &&& claims[i].kept is None ==> d[i].id == identity::disk_name(fresh[i])
            &&& d[i].volume_id == claims[i].volume_id
            &&& d[i].directory == claims[i].directory
            &&& d[i].allocation_gib == claims[i].allocation_gib
        }),
{
}

} // verus!
