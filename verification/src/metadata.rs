//! The descriptive record that the token-metadata program keeps for an asset.
//!
//! The staking rules read one thing from it: the asset's name. Decoding the
//! record is the token-metadata crate's work; what is decided on the result
//! is verified here.

use vstd::prelude::*;
use crate::address::{address_extensionality, Address};
use mpl_token_metadata::state::TokenMetadataAccount;

verus! {

/// The token-metadata program.
#[derive(Clone, Copy, Debug)]
pub struct Metadata;

/// The bytes of the token-metadata program's identifier, which reads
/// `metaqbxxUerdq28cj1RbAWkYQm3ybzjb6a8bt518x1s` in base 58.
pub open spec fn metadata_program_id() -> Seq<u8> {
    seq![
        11u8, 112, 101, 177, 227, 209, 124, 69, 56, 157, 82, 127, 107, 4, 195, 205, 88, 184, 108,
        115, 26, 160, 253, 181, 73, 182, 209, 188, 3, 248, 41, 70,
    ]
}

/// Calls `mpl_token_metadata::id`, which returns the identifier that the
/// crate declares for its program. The contract gives the 32 bytes that the
/// declared base-58 text decodes to.
#[verifier::external_body]
fn declared_program_id() -> (id: Address)
    ensures
        id@ == metadata_program_id(),
{
    Address { bytes: mpl_token_metadata::id().to_bytes() }
}

impl Metadata {
    /// The identifier of the token-metadata program.
    pub fn id() -> (id: Address)
        ensures
            id@ == metadata_program_id(),
    {
        declared_program_id()
    }
}

/// What the ledger holds of an asset's metadata account: the program that
/// owns the account, and the account's data.
#[derive(Clone, Debug, PartialEq, Eq)]
pub struct MetadataAccount {
    pub owner: Address,
    pub data: Vec<u8>,
}

/// Why a metadata account does not yield a name.
#[derive(Debug, PartialEq, Eq, Structural, Clone, Copy)]
pub enum MetadataError {
    /// The data is not a metadata record of the token-metadata program.
    DataTypeMismatch,
    /// The account belongs to another program.
    IncorrectOwner,
}

/// The name in the metadata record that `data` encodes, or `None` where
/// `data` encodes no such record.
pub uninterp spec fn decoded_name(data: Seq<u8>) -> Option<Seq<char>>;

/// Calls `Metadata::safe_deserialize` of the token-metadata crate, which
/// checks the record's type tag and length and then decodes it, and hands out
/// the `name` of the decoded record's `data`. The outcome depends on the bytes
/// alone; the contract names it `decoded_name` and says no more of it.
#[verifier::external_body]
fn decode_name(data: &[u8]) -> (name: Option<String>)
    ensures
        match name {
            Some(text) => decoded_name(data@) == Some(text@),
            None => decoded_name(data@) is None,
        },
{
    match mpl_token_metadata::state::Metadata::safe_deserialize(data) {
        Ok(record) => Some(record.data.name),
        Err(_) => None,
    }
}

/// The name that a metadata account yields for its record decoded to
/// `decoded`: the record has to decode, and the account has to belong to the
/// token-metadata program. A record that does not decode is reported first.
pub open spec fn name_of_decoded(
    owner: Address,
    decoded: Option<Seq<char>>,
) -> Result<Seq<char>, MetadataError> {
    match decoded {
        None => Err(MetadataError::DataTypeMismatch),
        Some(name) => if owner@ == metadata_program_id() {
            Ok(name)
        } else {
            Err(MetadataError::IncorrectOwner)
        },
    }
}

/// The name that a metadata account yields.
pub open spec fn asset_name_of(account: MetadataAccount) -> Result<Seq<char>, MetadataError> {
    name_of_decoded(account.owner, decoded_name(account.data@))
}

/// The characters of a decoded name, if there is one.
pub open spec fn name_view(decoded: Option<String>) -> Option<Seq<char>> {
    match decoded {
        Some(text) => Some(text@),
        None => None,
    }
}

/// Accepts or refuses the name that was decoded from an account owned by
/// `owner`.
pub fn accept_name(owner: &Address, decoded: Option<String>) -> (name: Result<
    String,
    MetadataError,
>)
    ensures
        match name_of_decoded(*owner, name_view(decoded)) {
            Ok(text) => name matches Ok(accepted) && accepted@ == text,
            Err(error) => name == Err::<String, MetadataError>(error),
        },
{
    match decoded {
        None => Err(MetadataError::DataTypeMismatch),
        Some(text) => {
            let program = Metadata::id();
            proof {
                if owner@ == metadata_program_id() {
                    address_extensionality(*owner, program);
                }
            }
            if *owner == program {
                Ok(text)
            } else {
                Err(MetadataError::IncorrectOwner)
            }
        },
    }
}

/// The name of the asset that a metadata account describes.
///
/// Fails with `DataTypeMismatch` where the account's data is no metadata
/// record, and with `IncorrectOwner` where it is one but the account does not
/// belong to the token-metadata program.
pub fn asset_name(account: &MetadataAccount) -> (name: Result<String, MetadataError>)
    ensures
        match asset_name_of(*account) {
            Ok(text) => name matches Ok(accepted) && accepted@ == text,
            Err(error) => name == Err::<String, MetadataError>(error),
        },
{
    let decoded = decode_name(account.data.as_slice());
    accept_name(&account.owner, decoded)
}

} // verus!
