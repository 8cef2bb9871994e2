//! Token metadata accounts of the Metaplex token-metadata program, as the locker reads them.
use vstd::prelude::*;
use crate::pubkey::Pubkey;

verus! {

/// The parts of a token's metadata that the locker reads.
#[derive(Clone, Debug, PartialEq, Eq)]
pub struct TokenMetadata {
    /// the mint the metadata describes
    pub mint: Pubkey,
    pub name: String,
    pub symbol: String,
}

#[verifier::external_type_specification]
#[verifier::external_body]
pub struct ExIoError(std::io::Error);

/// What Borsh decoding of a metadata account's data gives: the mint's bytes, the name and the
/// symbol, or nothing when the data does not decode.
pub uninterp spec fn spec_metadata_from_bytes(data: Seq<u8>) -> Option<(Seq<u8>, Seq<char>, Seq<char>)>;

/// `mpl_token_metadata::accounts::Metadata::from_bytes`: Borsh-decodes a metadata account from
/// the start of its data (trailing bytes are ignored). The contract names the decoded mint,
/// name and symbol as a function of the data; the decoder itself is not restated.
#[verifier::external_body]
pub(crate) fn metadata_from_bytes(data: &[u8]) -> (r: Result<TokenMetadata, std::io::Error>)
    ensures
        r is Ok <==> spec_metadata_from_bytes(data@) is Some,
        r matches Ok(m) ==> spec_metadata_from_bytes(data@) == Some((m.mint.bytes@, m.name@, m.symbol@)),
{
    match mpl_token_metadata::accounts::Metadata::from_bytes(data) {
        Ok(m) => Ok(TokenMetadata { mint: Pubkey { bytes: m.mint.to_bytes() }, name: m.name, symbol: m.symbol }),
        Err(e) => Err(e),
    }
}

/// The address of the token-metadata program.
pub open spec fn spec_token_metadata_program_id() -> [u8; 32] {
    [
        11u8, 112u8, 101u8, 177u8, 227u8, 209u8, 124u8, 69u8, 56u8, 157u8, 82u8, 127u8, 107u8, 4u8,
        195u8, 205u8, 88u8, 184u8, 108u8, 115u8, 26u8, 160u8, 253u8, 181u8, 73u8, 182u8, 209u8,
        188u8, 3u8, 248u8, 41u8, 70u8,
    ]
}

/// `mpl_token_metadata::ID`, the address `metaqbxxUerdq28cj1RbAWkYQm3ybzjb6a8bt518x1s`.
#[verifier::external_body]
pub(crate) fn token_metadata_program_id() -> (r: Pubkey)
    ensures
        r.bytes == spec_token_metadata_program_id(),
{
    Pubkey { bytes: mpl_token_metadata::ID.to_bytes() }
}

} // verus!
