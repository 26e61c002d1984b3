use anchor_lang::prelude::Pubkey;
use vstd::prelude::*;

verus! {

/// The base58 text of the platform operator's address.
pub const CREATOR: &'static str = "Ddi1GaugnX9yQz1WwK1b12m4o23rK1krZQMcnt2aNW97";

/// A 32-byte account address, compared byte for byte.
#[derive(Clone, Copy, Debug, PartialEq, Eq)]
pub struct Identity {
    pub bytes: [u8; 32],
}

/// What `Pubkey::from_str` makes of a text: the 32 decoded bytes, or nothing
/// where the text is not the base58 form of exactly 32 bytes.
pub uninterp spec fn decoded_address(text: Seq<char>) -> Option<[u8; 32]>;

/// Calls `Pubkey::from_str` of `solana_program` (reached through `str::parse`)
/// and hands back the bytes of the key it decoded. The decoding is a function
/// of the text alone; the contract only gives that function a name.
#[verifier::external_body]
fn decode_address(text: &str) -> (key: Option<[u8; 32]>)
    ensures
        key == decoded_address(text@),
{
    match text.parse::<Pubkey>() {
        Ok(key) => Some(key.to_bytes()),
        Err(_) => None,
    }
}

impl Identity {
    /// Whether two identities hold the same 32 bytes.
    pub fn same(&self, other: &Identity) -> (equal: bool)
        ensures
            equal == (*self == *other),
    {
        let mut i: usize = 0;
        while i < 32
            invariant
                i <= 32,
                forall|j: int| 0 <= j < i ==> self.bytes[j] == other.bytes[j],
            decreases 32 - i,
        {
            if self.bytes[i] != other.bytes[i] {
                return false;
            }
            i = i + 1;
        }
        assert(self.bytes =~= other.bytes);
        true
    }
}

/// The platform operator: the identity that `CREATOR` decodes to, if it
/// decodes to one.
pub open spec fn creator_key() -> Option<Identity> {
    match decoded_address(CREATOR@) {
        Some(bytes) => Some(Identity { bytes }),
        None => None,
    }
}

/// Decodes the platform operator's identity from `CREATOR`.
pub fn creator() -> (key: Option<Identity>)
    ensures
        key == creator_key(),
{
    match decode_address(CREATOR) {
        Some(bytes) => Some(Identity { bytes }),
        None => None,
    }
}

/// Whether `signer` is the platform operator `creator`. Where the operator
/// is unknown, nobody is.
pub fn is_creator(creator: &Option<Identity>, signer: &Identity) -> (yes: bool)
    ensures
        yes == (*creator == Some(*signer)),
{
    match creator {
        Some(key) => key.same(signer),
        None => false,
    }
}

} // verus!
