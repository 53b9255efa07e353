use vstd::prelude::*;

use crate::error::{CPtr, SyscallError};
use crate::rights::Rights;

verus! {

/// The three kernel operations a [`crate::Broker`] performs. All slot
/// arguments name slots in the broker's own single CNode.
///
/// Implementations perform real kernel calls (a confined program's `ecall`s,
/// or a privileged caller's direct kernel entry); what they return depends on
/// the kernel's state, so the broker assumes nothing of it.
pub trait BrokerBackend {
    /// `CNodeInvoke::Mint`: place an attenuated (`rights` within the source's
    /// rights), `badge`-stamped copy of `src` into the empty slot `dest`.
    /// `self_cnode` names the broker's capability to its own CNode.
    fn mint(
        &mut self,
        self_cnode: CPtr,
        src: CPtr,
        dest: CPtr,
        badge: u64,
        rights: Rights,
    ) -> Result<(), SyscallError>;

    /// `Send` carrying one capability: transfer the capability in
    /// `transfer_slot` to a receiver waiting on `endpoint` with a registered
    /// destination slot. `payload` becomes the delivered `mr2`/`mr3`.
    fn grant_send(
        &mut self,
        endpoint: CPtr,
        transfer_slot: CPtr,
        payload: (usize, usize),
    ) -> Result<(), SyscallError>;

    /// `Reply` carrying one capability: transfer the capability in
    /// `transfer_slot` to whichever `Call` this thread currently answers.
    fn grant_reply(&mut self, transfer_slot: CPtr, payload: (usize, usize)) -> Result<
        (),
        SyscallError,
    >;
}

/// The confined backend: a confined program is a single thread that the
/// kernel knows as `current`, so this carries nothing. Its operations are
/// system calls, made by the program that hosts the broker.
#[derive(Clone, Copy, Debug, Default)]
pub struct Abi;

/// The third message register of a `CNodeInvoke::Mint`: the badge shifted
/// left by eight bits, with the rights' bits in the low byte.
///
/// The badge is converted to a machine word first; where it does not fit
/// after the shift, its high bits are lost, as with `<<` on a word. A badge
/// below 2^24 survives on every word size, and reads back from the high bits.
pub fn pack_mint_argument(badge: u64, rights: Rights) -> (r: usize)
    ensures
        r == ((badge as usize) << 8usize) | (rights.spec_bits() as usize),
        r & 0xffusize == rights.spec_bits() as usize,
        badge < 0x100_0000 ==> r >> 8usize == badge,
{
    let word: usize = badge as usize;
    let bits: u8 = rights.bits();
    let low: usize = bits as usize;
    let r: usize = (word << 8usize) | low;
    assert(low <= 0xff) by (bit_vector)
        requires
            low == bits as usize,
    ;
    assert(r & 0xffusize == low && (word < 0x100_0000usize ==> r >> 8usize == word))
        by (bit_vector)
        requires
            r == (word << 8usize) | low,
            low <= 0xff,
    ;
    proof {
        if badge < 0x100_0000 {
            assert(word == badge);
        }
    }
    r
}

} // verus!
