use vstd::prelude::*;

use crate::backend::BrokerBackend;
use crate::error::{CPtr, SyscallError};
use crate::rights::Rights;

verus! {

/// How many badges one broker can ever mint: its grant table has this many
/// slots, and a slot, once used, is never reclaimed.
pub const MAX_GRANTS: usize = 32;

/// One minted badge and whether it has been revoked.
#[derive(Clone, Copy, Debug)]
struct GrantRecord {
    badge: u64,
    revoked: bool,
}

/// Whether `badge` was minted, given the revocation flags of the badges
/// minted so far (`revocations[k]` belongs to badge `k + 1`).
pub open spec fn badge_known(revocations: Seq<bool>, badge: u64) -> bool {
    1 <= badge <= revocations.len()
}

/// Whether `badge` reads as revoked: its flag where it was minted, and
/// revoked where it was not (deny by default).
pub open spec fn reads_revoked(revocations: Seq<bool>, badge: u64) -> bool {
    if badge_known(revocations, badge) {
        revocations[badge - 1]
    } else {
        true
    }
}

/// What the broker hands to the kernel's `CNodeInvoke::Mint` for one mint,
/// and the grant-table slot where the badge is recorded once the kernel has
/// minted it.
#[derive(Clone, Copy, Debug, PartialEq, Eq)]
pub struct MintRequest {
    /// The broker's capability to its own CNode.
    pub self_cnode: CPtr,
    /// The slot of the capability to attenuate.
    pub src: CPtr,
    /// The empty slot that receives the minted copy.
    pub dest: CPtr,
    /// The badge stamped on the copy.
    pub badge: u64,
    /// The rights of the copy.
    pub rights: Rights,
    /// The grant-table slot that will hold the badge's record.
    pub slot: usize,
}

/// A service-layer capability broker: mints attenuated, badged capabilities
/// from capabilities it already holds, grants them to waiting clients over
/// IPC, and tracks revocation itself.
///
/// Its view is the revocation flag of every badge minted so far, in minting
/// order: badges are handed out as 1, 2, 3, ..., and the flag of badge `b`
/// is at index `b - 1`.
pub struct Broker {
    self_cnode_cptr: CPtr,
    next_badge: u64,
    grants: [Option<GrantRecord>; MAX_GRANTS],
}

impl View for Broker {
    type V = Seq<bool>;

    closed spec fn view(&self) -> Seq<bool> {
        Seq::new((self.next_badge - 1) as nat, |i: int| self.grants[i].unwrap().revoked)
    }
}

impl Broker {
    /// The table is filled from the front: the first `next_badge - 1` slots
    /// hold the badges 1, 2, ... in order, and the rest are empty.
    #[verifier::type_invariant]
    spec fn table_is_prefix(self) -> bool {
        &&& 1 <= self.next_badge <= MAX_GRANTS + 1
        &&& forall|i: int|
            0 <= i < MAX_GRANTS ==> ((#[trigger] self.grants[i]) is Some <==> i < self.next_badge
                - 1)
        &&& forall|i: int|
            0 <= i < self.next_badge - 1 ==> (#[trigger] self.grants[i])->Some_0.badge == i + 1
    }

    /// The slot, in the broker's own CSpace, of its capability to its own CNode.
    pub closed spec fn self_cnode(self) -> CPtr {
        self.self_cnode_cptr
    }

    /// What a mint of `rights` from `source_slot` into `scratch_slot` asks of
    /// the kernel, or why the broker refuses it before asking: the rights
    /// must include the grant right, and the grant table must have room.
    pub open spec fn spec_plan_mint(
        self,
        source_slot: CPtr,
        scratch_slot: CPtr,
        rights: Rights,
    ) -> Result<MintRequest, SyscallError> {
        if !rights.spec_contains(Rights::grant()) {
            Err(SyscallError::IllegalOperation)
        } else if self@.len() >= MAX_GRANTS {
            Err(SyscallError::NotEnoughMemory)
        } else {
            Ok(
                MintRequest {
                    self_cnode: self.self_cnode(),
                    src: source_slot,
                    dest: scratch_slot,
                    badge: (self@.len() + 1) as u64,
                    rights,
                    slot: self@.len() as usize,
                },
            )
        }
    }

    /// A broker that has minted nothing. `self_cnode_cptr` names a
    /// capability, in the broker's own CSpace, to the broker's own CNode.
    pub fn new(self_cnode_cptr: CPtr) -> (r: Broker)
        ensures
            r@ == Seq::<bool>::empty(),
            r.self_cnode() == self_cnode_cptr,
    {
        let r = Broker { self_cnode_cptr, next_badge: 1, grants: [None; MAX_GRANTS] };
        assert(r@ =~= Seq::<bool>::empty());
        r
    }

    /// The first empty slot of the grant table, if any.
    fn free_slot(&self) -> (r: Option<usize>)
        ensures
            r == (if self@.len() < MAX_GRANTS {
                Some(self@.len() as usize)
            } else {
                None::<usize>
            }),
    {
        proof {
            use_type_invariant(self);
        }
        let mut i: usize = 0;
        while i < MAX_GRANTS
            invariant
                i <= MAX_GRANTS,
                i <= self.next_badge - 1,
                1 <= self.next_badge <= MAX_GRANTS + 1,
                forall|j: int|
                    0 <= j < MAX_GRANTS ==> ((#[trigger] self.grants[j]) is Some <==> j
                        < self.next_badge - 1),
            decreases MAX_GRANTS - i,
        {
            if self.grants[i].is_none() {
                return Some(i);
            }
            i = i + 1;
        }
        None
    }

    /// Decides a mint before the kernel is asked: refuses rights without the
    /// grant right (`IllegalOperation`) and a full grant table
    /// (`NotEnoughMemory`); otherwise returns what to hand to the kernel,
    /// with the next badge.
    pub fn plan_mint(&self, source_slot: CPtr, scratch_slot: CPtr, rights: Rights) -> (r: Result<
        MintRequest,
        SyscallError,
    >)
        ensures
            r == self.spec_plan_mint(source_slot, scratch_slot, rights),
            self@.len() <= MAX_GRANTS,
            r matches Ok(request) ==> {
                &&& request.slot == self@.len()
                &&& request.badge == request.slot + 1
                &&& request.self_cnode == self.self_cnode()
                &&& request.src == source_slot
                &&& request.dest == scratch_slot
                &&& request.rights == rights
            },
    {
        proof {
            use_type_invariant(self);
        }
        if !rights.contains(Rights::grant()) {
            return Err(SyscallError::IllegalOperation);
        }
        match self.free_slot() {
            None => Err(SyscallError::NotEnoughMemory),
            Some(slot) => Ok(
                MintRequest {
                    self_cnode: self.self_cnode_cptr,
                    src: source_slot,
                    dest: scratch_slot,
                    badge: self.next_badge,
                    rights,
                    slot,
                },
            ),
        }
    }

    /// Records the outcome of the kernel mint that `request` asked for: on
    /// success the badge is recorded, not revoked, and returned; on failure
    /// nothing is recorded and the kernel's error is returned.
    pub fn complete_mint(&mut self, request: &MintRequest, outcome: Result<(), SyscallError>) -> (r:
        Result<u64, SyscallError>)
        requires
            old(self).spec_plan_mint(request.src, request.dest, request.rights) == Ok::<
                MintRequest,
                SyscallError,
            >(*request),
        ensures
            match outcome {
                Ok(()) => r == Ok::<u64, SyscallError>(request.badge) && final(self)@ == old(
                    self,
                )@.push(false),
                Err(e) => r == Err::<u64, SyscallError>(e) && final(self)@ == old(self)@,
            },
            final(self).self_cnode() == old(self).self_cnode(),
    {
        proof {
            use_type_invariant(&*self);
        }
        match outcome {
            Err(e) => Err(e),
            Ok(()) => {
                let ghost before = self@;
                let mut grants = self.grants;
                grants[request.slot] = Some(GrantRecord { badge: request.badge, revoked: false });
                *self = Broker {
                    self_cnode_cptr: self.self_cnode_cptr,
                    next_badge: request.badge + 1,
                    grants,
                };
                assert(self@ =~= before.push(false));
                Ok(request.badge)
            },
        }
    }

    /// Mints an attenuated copy of the capability at `source_slot` (in the
    /// broker's own CSpace) into `scratch_slot` (also the broker's own
    /// CSpace), with `rights`, and records a fresh badge for it. Returns the
    /// badge; callers pass it (and `scratch_slot`) to [`Broker::grant`].
    ///
    /// Rights without the grant right are refused before the kernel is
    /// asked, and so is a mint when the grant table is full. Otherwise the
    /// backend's `mint` is called once, with the broker's self-CNode slot,
    /// `source_slot`, `scratch_slot`, the next badge and exactly `rights`;
    /// its refusal (such as rights beyond the source's) is passed on
    /// unchanged and no badge is recorded, and its success records the badge
    /// as not revoked and returns it.
    pub fn mint<B: BrokerBackend>(
        &mut self,
        backend: &mut B,
        source_slot: CPtr,
        scratch_slot: CPtr,
        rights: Rights,
    ) -> (r: Result<u64, SyscallError>)
        ensures
            match old(self).spec_plan_mint(source_slot, scratch_slot, rights) {
                Err(e) => {
                    &&& r == Err::<u64, SyscallError>(e)
                    &&& final(self)@ == old(self)@
                    &&& *final(backend) == *old(backend)
                },
                Ok(request) => exists|m: &mut B, outcome: Result<(), SyscallError>|
                    {
                        &&& mut_ref_current(m) == *old(backend)
                        &&& mut_ref_future(m) == *final(backend)
                        &&& #[trigger] call_ensures(
                            B::mint,
                            (m, request.self_cnode, request.src, request.dest, request.badge, request.rights),
                            outcome,
                        )
                        &&& match outcome {
                            Ok(()) => r == Ok::<u64, SyscallError>(request.badge) && final(self)@
                                == old(self)@.push(false),
                            Err(e) => r == Err::<u64, SyscallError>(e) && final(self)@ == old(
                                self,
                            )@,
                        }
                    },
            },
            final(self).self_cnode() == old(self).self_cnode(),
    {
        match self.plan_mint(source_slot, scratch_slot, rights) {
            Err(e) => Err(e),
            Ok(request) => {
                let outcome = backend.mint(
                    request.self_cnode,
                    request.src,
                    request.dest,
                    request.badge,
                    request.rights,
                );
                self.complete_mint(&request, outcome)
            },
        }
    }

    /// Transfers the capability at `scratch_slot` (normally one that
    /// [`Broker::mint`] just produced) to whichever thread waits on
    /// `endpoint_cptr` with a registered destination slot; `payload`
    /// becomes the delivered message's second and third registers. The
    /// result is the backend's answer to exactly one `grant_send` with these
    /// arguments.
    pub fn grant<B: BrokerBackend>(
        &self,
        backend: &mut B,
        endpoint_cptr: CPtr,
        scratch_slot: CPtr,
        payload: (usize, usize),
    ) -> (r: Result<(), SyscallError>)
        ensures
            exists|m: &mut B|
                mut_ref_current(m) == *old(backend) && mut_ref_future(m) == *final(backend)
                    && #[trigger] call_ensures(
                    B::grant_send,
                    (m, endpoint_cptr, scratch_slot, payload),
                    r,
                ),
    {
        backend.grant_send(endpoint_cptr, scratch_slot, payload)
    }

    /// Like [`Broker::grant`], but replies, with the capability attached, to
    /// the `Call` this broker currently holds a reply link for. The result
    /// is the backend's answer to exactly one `grant_reply` with these
    /// arguments.
    pub fn grant_via_reply<B: BrokerBackend>(
        &self,
        backend: &mut B,
        scratch_slot: CPtr,
        payload: (usize, usize),
    ) -> (r: Result<(), SyscallError>)
        ensures
            exists|m: &mut B|
                mut_ref_current(m) == *old(backend) && mut_ref_future(m) == *final(backend)
                    && #[trigger] call_ensures(B::grant_reply, (m, scratch_slot, payload), r),
    {
        backend.grant_reply(scratch_slot, payload)
    }

    /// Marks `badge` revoked; `InvalidCapability` if it was never minted
    /// here. The client's kernel capability is not touched: every dispatch
    /// the broker handles for `badge` must consult [`Broker::is_revoked`].
    pub fn revoke(&mut self, badge: u64) -> (r: Result<(), SyscallError>)
        ensures
            badge_known(old(self)@, badge) ==> r == Ok::<(), SyscallError>(()) && final(self)@
                == old(self)@.update(badge - 1, true),
            !badge_known(old(self)@, badge) ==> r == Err::<(), SyscallError>(
                SyscallError::InvalidCapability,
            ) && final(self)@ == old(self)@,
            final(self).self_cnode() == old(self).self_cnode(),
    {
        proof {
            use_type_invariant(&*self);
        }
        let mut i: usize = 0;
        while i < MAX_GRANTS
            invariant
                i <= MAX_GRANTS,
                *self == *old(self),
                1 <= self.next_badge <= MAX_GRANTS + 1,
                forall|j: int|
                    0 <= j < MAX_GRANTS ==> ((#[trigger] self.grants[j]) is Some <==> j
                        < self.next_badge - 1),
                forall|j: int|
                    0 <= j < self.next_badge - 1 ==> (#[trigger] self.grants[j])->Some_0.badge
                        == j + 1,
                forall|j: int|
                    0 <= j < i && j < self.next_badge - 1 ==> (#[trigger] self.grants[j])->Some_0.badge
                        != badge,
            decreases MAX_GRANTS - i,
        {
            match self.grants[i] {
                Some(g) => {
                    if g.badge == badge {
                        let ghost before = self@;
                        let mut grants = self.grants;
                        grants[i] = Some(GrantRecord { badge: g.badge, revoked: true });
                        self.grants = grants;
                        assert(self@ =~= before.update(badge - 1, true));
                        return Ok(());
                    }
                },
                None => {},
            }
            i = i + 1;
        }
        proof {
            if badge_known(self@, badge) {
                let k: int = badge - 1;
                assert(self.grants[k]->Some_0.badge == badge);
            }
        }
        Err(SyscallError::InvalidCapability)
    }

    /// Whether `badge` should be treated as revoked. Deny by default: a badge
    /// this broker never minted reads as revoked. (A broker never holds more
    /// than [`MAX_GRANTS`] badges.)
    pub fn is_revoked(&self, badge: u64) -> (r: bool)
        ensures
            r == reads_revoked(self@, badge),
            self@.len() <= MAX_GRANTS,
    {
        proof {
            use_type_invariant(self);
        }
        let mut i: usize = 0;
        while i < MAX_GRANTS
            invariant
                i <= MAX_GRANTS,
                1 <= self.next_badge <= MAX_GRANTS + 1,
                forall|j: int|
                    0 <= j < MAX_GRANTS ==> ((#[trigger] self.grants[j]) is Some <==> j
                        < self.next_badge - 1),
                forall|j: int|
                    0 <= j < self.next_badge - 1 ==> (#[trigger] self.grants[j])->Some_0.badge
                        == j + 1,
                forall|j: int|
                    0 <= j < i && j < self.next_badge - 1 ==> (#[trigger] self.grants[j])->Some_0.badge
                        != badge,
            decreases MAX_GRANTS - i,
        {
            match self.grants[i] {
                Some(g) => {
                    if g.badge == badge {
                        return g.revoked;
                    }
                },
                None => {},
            }
            i = i + 1;
        }
        true
    }
}

} // verus!
