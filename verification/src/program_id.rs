//! The identifier of an on-chain program, the text it is shown as, and the
//! identifier under which this program is deployed.

use vstd::prelude::*;

verus! {

/// The identifier of an on-chain program: a public key of 32 bytes.
#[derive(Clone, Copy, Debug, PartialEq, Eq)]
pub struct ProgramId {
    pub bytes: [u8; 32],
}

impl View for ProgramId {
    type V = Seq<u8>;

    open spec fn view(&self) -> Seq<u8> {
        self.bytes@
    }
}

/// The bytes of the identifier under which this program is deployed, and by
/// which invocations are routed to it. In base58 they read
/// `FWjhpHmYAbQShp7SDaHt6Wz6bXBpPvVo4xqN1gjH2xTX`.
pub const ID: [u8; 32] = [
    215, 161, 190, 228, 123, 78, 170, 142, 173, 195, 204, 38, 17, 96, 161, 245,
    146, 135, 238, 43, 119, 190, 8, 220, 87, 144, 55, 169, 121, 94, 172, 230,
];

/// The text that `anchor_lang`'s `Pubkey` of the given 32 bytes shows when it is
/// formatted with `{:?}`: the key in base58.
pub uninterp spec fn pubkey_debug_text(bytes: Seq<u8>) -> Seq<char>;

impl ProgramId {
    /// Trusted, not proved: makes a `Pubkey` of these bytes with
    /// `Pubkey::new_from_array` and formats it with `{:?}`, which runs
    /// `<Pubkey as Debug>::fmt`. The contract claims that the text returned is the
    /// one that [`pubkey_debug_text`] names for these bytes, and so that it
    /// depends on the 32 bytes alone.
    #[verifier::external_body]
    pub(crate) fn debug_text(&self) -> (text: String)
        ensures
            text@ == pubkey_debug_text(self@),
    {
        format!("{:?}", anchor_lang::prelude::Pubkey::new_from_array(self.bytes))
    }
}

/// This program's identifier.
pub fn id() -> (id: ProgramId)
    ensures
        id@ == ID@,
{
    ProgramId { bytes: ID }
}

/// Whether `id` is this program's identifier.
pub fn check_id(id: &ProgramId) -> (same: bool)
    ensures
        same <==> id@ == ID@,
{
    let mut i: usize = 0;
    while i < 32
        invariant
            i <= 32,
            forall|k: int| 0 <= k < i ==> id.bytes@[k] == ID@[k],
        decreases 32 - i,
    {
        if id.bytes[i] != ID[i] {
            return false;
        }
        i += 1;
    }
    assert(id@ =~= ID@);
    true
}

} // verus!
