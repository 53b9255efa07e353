use vstd::prelude::*;

use crate::broker::{badge_known, reads_revoked, Broker, MintRequest, MAX_GRANTS};
use crate::error::{CPtr, SyscallError};
use crate::rights::Rights;

verus! {

/// Deny by default: a badge that was never minted reads as revoked.
pub proof fn lemma_unknown_badge_reads_revoked(revocations: Seq<bool>, badge: u64)
    requires
        !badge_known(revocations, badge),
    ensures
        reads_revoked(revocations, badge),
{
}

/// A successful mint hands out a badge that was not known before, that is
/// known afterwards and reads as not revoked, and leaves what every other
/// badge reads unchanged.
pub proof fn lemma_mint_yields_fresh_live_badge(
    before: Seq<bool>,
    after: Seq<bool>,
    badge: u64,
)
    requires
        before.len() < MAX_GRANTS,
        after == before.push(false),
        badge == (before.len() + 1) as u64,
    ensures
        !badge_known(before, badge),
        badge_known(after, badge),
        !reads_revoked(after, badge),
        forall|other: u64|
            other != badge ==> (#[trigger] reads_revoked(after, other)) == reads_revoked(
                before,
                other,
            ),
{
}

/// After `revoke(badge)`, whatever it answered, the badge reads as revoked,
/// and every other badge reads as it did before.
pub proof fn lemma_revoke_then_revoked(before: Seq<bool>, after: Seq<bool>, badge: u64)
    requires
        badge_known(before, badge) ==> after == before.update(badge - 1, true),
        !badge_known(before, badge) ==> after == before,
    ensures
        reads_revoked(after, badge),
        forall|other: u64|
            other != badge ==> (#[trigger] reads_revoked(after, other)) == reads_revoked(
                before,
                other,
            ),
{
}

/// Revoking a badge twice is the same as revoking it once.
pub proof fn lemma_revoke_idempotent(revocations: Seq<bool>, badge: u64)
    requires
        badge_known(revocations, badge),
    ensures
        revocations.update(badge - 1, true).update(badge - 1, true) == revocations.update(
            badge - 1,
            true,
        ),
{
    assert(revocations.update(badge - 1, true).update(badge - 1, true) =~= revocations.update(
        badge - 1,
        true,
    ));
}

/// Nothing is forgotten and nothing is reinstated: across a mint (successful
/// or not) and across a revoke, every known badge stays known, and a known
/// badge that reads as revoked stays revoked.
pub proof fn lemma_known_and_revoked_are_permanent(
    before: Seq<bool>,
    after: Seq<bool>,
    badge: u64,
    other: u64,
)
    requires
        after == before || after == before.push(false) || (badge_known(before, badge) && after
            == before.update(badge - 1, true)),
        badge_known(before, other),
    ensures
        badge_known(after, other),
        reads_revoked(before, other) ==> reads_revoked(after, other),
{
}

/// A mint is refused, whatever the broker holds, when the requested rights
/// lack the grant right; and, when they have it, exactly when the grant
/// table is full.
pub proof fn lemma_mint_refusals(
    broker: Broker,
    source_slot: CPtr,
    scratch_slot: CPtr,
    rights: Rights,
)
    ensures
        !rights.spec_contains(Rights::grant()) ==> broker.spec_plan_mint(
            source_slot,
            scratch_slot,
            rights,
        ) == Err::<MintRequest, SyscallError>(SyscallError::IllegalOperation),
        rights.spec_contains(Rights::grant()) ==> (broker.spec_plan_mint(
            source_slot,
            scratch_slot,
            rights,
        ) is Err <==> broker@.len() >= MAX_GRANTS),
{
}

/// A planned mint names the first empty grant-table slot (the one after the
/// badges already minted) and the badge one past that slot, and hands the
/// kernel the broker's self-CNode slot and exactly the caller's source,
/// scratch slot and rights.
pub proof fn lemma_plan_names_first_free_slot(
    broker: Broker,
    source_slot: CPtr,
    scratch_slot: CPtr,
    rights: Rights,
)
    ensures
        broker.spec_plan_mint(source_slot, scratch_slot, rights) matches Ok(request) ==> {
            &&& request.slot == broker@.len()
            &&& request.slot < MAX_GRANTS
            &&& request.badge == request.slot + 1
            &&& !badge_known(broker@, request.badge)
            &&& request.self_cnode == broker.self_cnode()
            &&& request.src == source_slot
            &&& request.dest == scratch_slot
            &&& request.rights == rights
        },
{
}

/// Two plans around one recorded mint: after the kernel accepts a planned
/// mint, the next plan (for the same rights) names the next slot and the
/// next badge, so no slot and no badge is named twice.
pub proof fn lemma_successive_plans_advance(
    before: Broker,
    after: Broker,
    source_slot: CPtr,
    scratch_slot: CPtr,
    rights: Rights,
    next_source: CPtr,
    next_scratch: CPtr,
)
    requires
        before.spec_plan_mint(source_slot, scratch_slot, rights) is Ok,
        after@ == before@.push(false),
        after.self_cnode() == before.self_cnode(),
        after@.len() < MAX_GRANTS,
    ensures
        after.spec_plan_mint(next_source, next_scratch, rights) is Ok,
        after.spec_plan_mint(next_source, next_scratch, rights)->Ok_0.slot == before.spec_plan_mint(
            source_slot,
            scratch_slot,
            rights,
        )->Ok_0.slot + 1,
        after.spec_plan_mint(next_source, next_scratch, rights)->Ok_0.badge
            == before.spec_plan_mint(source_slot, scratch_slot, rights)->Ok_0.badge + 1,
{
}

} // verus!
