//! The program's identity: a 32-byte public key and its base58 text.

use vstd::prelude::*;

verus! {

/// A 32-byte public key, as the runtime identifies programs and accounts.
#[derive(Clone, Copy, Debug, PartialEq, Eq)]
pub struct ProgramKey {
    pub bytes: [u8; 32],
}

impl View for ProgramKey {
    type V = Seq<u8>;

    open spec fn view(&self) -> Seq<u8> {
        self.bytes@
    }
}

/// The base58 text of a key, as the runtime's `Pubkey` prints it.
pub uninterp spec fn base58_text(bytes: Seq<u8>) -> Seq<char>;

/// The key under which this program is deployed
/// (`F1NwUJXRYaQ68NreZrFDnHinhi1JkcVVhNz6gjC2SKwP`).
pub open spec fn declared_id() -> Seq<u8> {
    seq![
        208u8, 28u8, 108u8, 116u8, 7u8, 28u8, 0u8, 77u8, 2u8, 71u8, 47u8, 136u8, 186u8, 44u8,
        27u8, 220u8, 156u8, 105u8, 230u8, 246u8, 236u8, 115u8, 133u8, 159u8, 87u8, 254u8, 35u8,
        75u8, 8u8, 109u8, 36u8, 178u8,
    ]
}

/// The program's declared identity.
pub fn id() -> (r: ProgramKey)
    ensures
        r@ == declared_id(),
{
    let r = ProgramKey {
        bytes: [
            208, 28, 108, 116, 7, 28, 0, 77, 2, 71, 47, 136, 186, 44, 27, 220, 156, 105, 230,
            246, 236, 115, 133, 159, 87, 254, 35, 75, 8, 109, 36, 178,
        ],
    };
    assert(r@ =~= declared_id());
    r
}

/// Relies on the `Debug` impl of anchor_lang's `Pubkey` (from solana_program),
/// which writes the base58 encoding of the key's 32 bytes.
#[verifier::external_body]
pub(crate) fn key_text(k: &ProgramKey) -> (r: String)
    ensures
        r@ == base58_text(k@),
{
    format!("{:?}", anchor_lang::prelude::Pubkey::new_from_array(k.bytes))
}

} // verus!
