use anchor_lang::AnchorSerialize;
use mpl_token_metadata::solana_program::pubkey::Pubkey;
use mpl_token_metadata::state::{Data, Key, Metadata as MetadataRecord, MAX_METADATA_LEN};
use nft_staking::metadata::{accept_name, asset_name, Metadata, MetadataAccount, MetadataError};
use nft_staking::Address;

fn record_bytes(key: Key, name: &str) -> Vec<u8> {
    let record = MetadataRecord {
        key,
        update_authority: Pubkey::new_from_array([1; 32]),
        mint: Pubkey::new_from_array([2; 32]),
        data: Data {
            name: name.to_string(),
            symbol: "ELMT".to_string(),
            uri: "https://example.org/6.json".to_string(),
            seller_fee_basis_points: 100,
            creators: None,
        },
        primary_sale_happened: false,
        is_mutable: true,
        edition_nonce: Some(254),
        token_standard: None,
        collection: None,
        uses: None,
        collection_details: None,
    };
    let mut bytes = record.try_to_vec().unwrap();
    bytes.resize(MAX_METADATA_LEN, 0);
    bytes
}

#[test]
fn program_id_is_the_declared_one() {
    assert_eq!(Metadata::id().bytes, mpl_token_metadata::ID.to_bytes());
    assert_eq!(
        Metadata::id().bytes,
        [
            11, 112, 101, 177, 227, 209, 124, 69, 56, 157, 82, 127, 107, 4, 195, 205, 88, 184, 108,
            115, 26, 160, 253, 181, 73, 182, 209, 188, 3, 248, 41, 70
        ]
    );
    assert_eq!(
        Pubkey::new_from_array(Metadata::id().bytes).to_string(),
        "metaqbxxUerdq28cj1RbAWkYQm3ybzjb6a8bt518x1s"
    );
}

#[test]
fn name_is_read_from_a_metadata_record() {
    let account = MetadataAccount {
        owner: Metadata::id(),
        data: record_bytes(Key::MetadataV1, "Carbon #6"),
    };
    assert_eq!(asset_name(&account), Ok("Carbon #6".to_string()));
}

#[test]
fn name_keeps_its_padding() {
    let padded = "Carbon #6\0\0\0\0\0\0\0\0\0\0\0\0\0\0\0\0\0\0\0\0\0\0\0";
    let account = MetadataAccount {
        owner: Metadata::id(),
        data: record_bytes(Key::MetadataV1, padded),
    };
    assert_eq!(asset_name(&account), Ok(padded.to_string()));
}

#[test]
fn data_that_is_no_metadata_record_is_a_type_mismatch() {
    let owner = Metadata::id();
    let empty = MetadataAccount { owner, data: Vec::new() };
    assert_eq!(asset_name(&empty), Err(MetadataError::DataTypeMismatch));
    let short = MetadataAccount { owner, data: vec![4, 1, 2, 3] };
    assert_eq!(asset_name(&short), Err(MetadataError::DataTypeMismatch));
    let mut too_long = record_bytes(Key::MetadataV1, "Carbon #6");
    too_long.push(0);
    let long = MetadataAccount { owner, data: too_long };
    assert_eq!(asset_name(&long), Err(MetadataError::DataTypeMismatch));
    let edition = MetadataAccount { owner, data: record_bytes(Key::EditionV1, "Carbon #6") };
    assert_eq!(asset_name(&edition), Err(MetadataError::DataTypeMismatch));
    let noise = MetadataAccount { owner, data: vec![255; MAX_METADATA_LEN] };
    assert_eq!(asset_name(&noise), Err(MetadataError::DataTypeMismatch));
}

#[test]
fn record_of_another_program_has_the_incorrect_owner() {
    let account = MetadataAccount {
        owner: Address::new([9; 32]),
        data: record_bytes(Key::MetadataV1, "Carbon #6"),
    };
    assert_eq!(asset_name(&account), Err(MetadataError::IncorrectOwner));
    let nearly = MetadataAccount {
        owner: Address::new({
            let mut bytes = Metadata::id().bytes;
            bytes[31] ^= 1;
            bytes
        }),
        data: record_bytes(Key::MetadataV1, "Carbon #6"),
    };
    assert_eq!(asset_name(&nearly), Err(MetadataError::IncorrectOwner));
}

#[test]
fn type_mismatch_is_reported_before_the_owner() {
    let account = MetadataAccount { owner: Address::new([9; 32]), data: vec![0; 10] };
    assert_eq!(asset_name(&account), Err(MetadataError::DataTypeMismatch));
}

#[test]
fn decoded_name_is_accepted_for_the_metadata_program_alone() {
    let name = Some("Helium #2".to_string());
    assert_eq!(accept_name(&Metadata::id(), name.clone()), Ok("Helium #2".to_string()));
    assert_eq!(accept_name(&Address::zero(), name), Err(MetadataError::IncorrectOwner));
    assert_eq!(accept_name(&Metadata::id(), None), Err(MetadataError::DataTypeMismatch));
    assert_eq!(accept_name(&Address::zero(), None), Err(MetadataError::DataTypeMismatch));
}
