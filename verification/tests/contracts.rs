use lantern_capabilities::{
    pack_mint_argument, Abi, Broker, BrokerBackend, CPtr, MintRequest, Rights, SyscallError,
    MAX_GRANTS,
};

/// A backend that answers every mint with a scripted outcome and records
/// what it was asked.
#[derive(Default)]
struct Scripted {
    refuse_mint: Option<SyscallError>,
    mints: Vec<(CPtr, CPtr, CPtr, u64, u8)>,
    sends: Vec<(CPtr, CPtr, (usize, usize))>,
    replies: Vec<(CPtr, (usize, usize))>,
}

impl BrokerBackend for Scripted {
    fn mint(
        &mut self,
        self_cnode: CPtr,
        src: CPtr,
        dest: CPtr,
        badge: u64,
        rights: Rights,
    ) -> Result<(), SyscallError> {
        self.mints.push((self_cnode, src, dest, badge, rights.bits()));
        match self.refuse_mint {
            Some(e) => Err(e),
            None => Ok(()),
        }
    }

    fn grant_send(
        &mut self,
        endpoint: CPtr,
        transfer_slot: CPtr,
        payload: (usize, usize),
    ) -> Result<(), SyscallError> {
        self.sends.push((endpoint, transfer_slot, payload));
        Err(SyscallError::FailedLookup)
    }

    fn grant_reply(&mut self, transfer_slot: CPtr, payload: (usize, usize)) -> Result<(), SyscallError> {
        self.replies.push((transfer_slot, payload));
        Ok(())
    }
}

fn read_grant() -> Rights {
    Rights::read().union(Rights::grant())
}

#[test]
fn rights_bits_union_and_contains() {
    assert_eq!(Rights::read().bits(), 1);
    assert_eq!(Rights::write().bits(), 2);
    assert_eq!(Rights::grant().bits(), 4);
    assert_eq!(Rights::all().bits(), 7);
    let rg = read_grant();
    assert_eq!(rg.bits(), 5);
    assert!(rg.contains(Rights::read()));
    assert!(rg.contains(Rights::grant()));
    assert!(!rg.contains(Rights::write()));
    assert!(Rights::all().contains(rg));
    assert!(!rg.contains(Rights::all()));
    assert_eq!(Rights::read().union(Rights::write()).union(Rights::grant()), Rights::all());
}

#[test]
fn pack_mint_argument_puts_badge_above_rights() {
    assert_eq!(pack_mint_argument(1, read_grant()), 0x105);
    assert_eq!(pack_mint_argument(33, Rights::all()), 33 * 256 + 7);
    assert_eq!(pack_mint_argument(0, Rights::grant()), 4);
    let w = pack_mint_argument(0xabcdef, Rights::write());
    assert_eq!(w >> 8, 0xabcdef);
    assert_eq!(w & 0xff, 2);
}

#[test]
fn plan_mint_names_the_next_badge_and_first_free_slot() {
    let broker = Broker::new(3);
    assert_eq!(
        broker.plan_mint(5, 6, read_grant()),
        Ok(MintRequest { self_cnode: 3, src: 5, dest: 6, badge: 1, rights: read_grant(), slot: 0 })
    );
    assert_eq!(broker.plan_mint(5, 6, Rights::all().union(Rights::read())).map(|r| r.badge), Ok(1));
    assert_eq!(broker.plan_mint(5, 6, Rights::read()), Err(SyscallError::IllegalOperation));
    assert_eq!(
        broker.plan_mint(5, 6, Rights::read().union(Rights::write())),
        Err(SyscallError::IllegalOperation)
    );
}

#[test]
fn complete_mint_records_only_on_kernel_success() {
    let mut broker = Broker::new(0);
    let req = broker.plan_mint(5, 6, read_grant()).unwrap();
    assert_eq!(broker.complete_mint(&req, Err(SyscallError::DeleteFirst)), Err(SyscallError::DeleteFirst));
    assert!(broker.is_revoked(1));
    let req = broker.plan_mint(5, 6, read_grant()).unwrap();
    assert_eq!(req.badge, 1);
    assert_eq!(broker.complete_mint(&req, Ok(())), Ok(1));
    assert!(!broker.is_revoked(1));
    assert_eq!(broker.plan_mint(5, 7, read_grant()).unwrap().badge, 2);
}

#[test]
fn mint_hands_the_planned_request_to_the_kernel() {
    let mut k = Scripted::default();
    let mut broker = Broker::new(4);
    assert_eq!(broker.mint(&mut k, 5, 6, read_grant()), Ok(1));
    assert_eq!(broker.mint(&mut k, 5, 7, Rights::all()), Ok(2));
    assert_eq!(k.mints, vec![(4, 5, 6, 1, 5), (4, 5, 7, 2, 7)]);
}

#[test]
fn refused_mint_never_reaches_the_kernel() {
    let mut k = Scripted::default();
    let mut broker = Broker::new(0);
    assert_eq!(broker.mint(&mut k, 5, 6, Rights::read()), Err(SyscallError::IllegalOperation));
    assert!(k.mints.is_empty());
}

#[test]
fn kernel_refusal_is_passed_on_and_records_nothing() {
    let mut k = Scripted { refuse_mint: Some(SyscallError::IllegalOperation), ..Scripted::default() };
    let mut broker = Broker::new(0);
    assert_eq!(broker.mint(&mut k, 5, 6, read_grant()), Err(SyscallError::IllegalOperation));
    assert!(broker.is_revoked(1));
    assert_eq!(broker.revoke(1), Err(SyscallError::InvalidCapability));
    k.refuse_mint = None;
    // the badge that was not recorded is the one handed out next
    assert_eq!(broker.mint(&mut k, 5, 6, read_grant()), Ok(1));
}

#[test]
fn badges_are_fresh_and_sequential() {
    let mut k = Scripted::default();
    let mut broker = Broker::new(0);
    let a = broker.mint(&mut k, 5, 6, read_grant()).unwrap();
    let b = broker.mint(&mut k, 5, 7, read_grant()).unwrap();
    let c = broker.mint(&mut k, 5, 8, read_grant()).unwrap();
    assert_eq!((a, b, c), (1, 2, 3));
    assert!(!broker.is_revoked(a) && !broker.is_revoked(b) && !broker.is_revoked(c));
    assert!(broker.is_revoked(0));
    assert!(broker.is_revoked(4));
}

#[test]
fn grant_table_fills_after_max_grants_and_never_reclaims() {
    let mut k = Scripted::default();
    let mut broker = Broker::new(0);
    for i in 0..MAX_GRANTS {
        assert_eq!(broker.mint(&mut k, 5, 6, read_grant()), Ok(i as u64 + 1));
    }
    broker.revoke(3).unwrap();
    assert_eq!(broker.mint(&mut k, 5, 6, read_grant()), Err(SyscallError::NotEnoughMemory));
    assert_eq!(broker.plan_mint(5, 6, read_grant()), Err(SyscallError::NotEnoughMemory));
    // without the grant right the policy refusal comes first
    assert_eq!(broker.mint(&mut k, 5, 6, Rights::read()), Err(SyscallError::IllegalOperation));
    assert_eq!(k.mints.len(), MAX_GRANTS);
    assert!(!broker.is_revoked(MAX_GRANTS as u64));
    assert!(broker.is_revoked(MAX_GRANTS as u64 + 1));
}

#[test]
fn revoke_touches_only_its_badge_and_is_idempotent() {
    let mut k = Scripted::default();
    let mut broker = Broker::new(0);
    for _ in 0..3 {
        broker.mint(&mut k, 5, 6, read_grant()).unwrap();
    }
    assert_eq!(broker.revoke(2), Ok(()));
    assert!(!broker.is_revoked(1));
    assert!(broker.is_revoked(2));
    assert!(!broker.is_revoked(3));
    assert_eq!(broker.revoke(2), Ok(()));
    assert!(broker.is_revoked(2));
    assert!(!broker.is_revoked(1));
}

#[test]
fn revoke_of_unknown_badge_is_invalid_capability() {
    let mut k = Scripted::default();
    let mut broker = Broker::new(0);
    assert_eq!(broker.revoke(1), Err(SyscallError::InvalidCapability));
    broker.mint(&mut k, 5, 6, read_grant()).unwrap();
    assert_eq!(broker.revoke(0), Err(SyscallError::InvalidCapability));
    assert_eq!(broker.revoke(2), Err(SyscallError::InvalidCapability));
    assert_eq!(broker.revoke(u64::MAX), Err(SyscallError::InvalidCapability));
    assert!(!broker.is_revoked(1));
}

#[test]
fn grants_forward_to_the_kernel_and_pass_its_answer_back() {
    let mut k = Scripted::default();
    let broker = Broker::new(0);
    assert_eq!(broker.grant(&mut k, 1, 6, (111, 222)), Err(SyscallError::FailedLookup));
    assert_eq!(broker.grant_via_reply(&mut k, 6, (3, 4)), Ok(()));
    assert_eq!(k.sends, vec![(1, 6, (111, 222))]);
    assert_eq!(k.replies, vec![(6, (3, 4))]);
}

#[test]
fn abi_is_a_plain_marker() {
    let a = Abi::default();
    let b = a;
    assert_eq!(format!("{:?}", b), "Abi");
}
