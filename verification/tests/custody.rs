use mpl_token_metadata::instruction::{freeze_delegated_account, thaw_delegated_account};
use mpl_token_metadata::solana_program::instruction::Instruction;
use mpl_token_metadata::solana_program::pubkey::Pubkey;
use nft_staking::custody::{authority_seeds, mint_seeds, AccountRole, Action, CustodyInstruction};
use nft_staking::metadata::Metadata;
use nft_staking::Address;

fn freeze() -> Action {
    Action::Freeze {
        delegate: Address::new([5; 32]),
        bump: 253,
        account: Address::new([2; 32]),
        edition: Address::new([4; 32]),
        mint: Address::new([3; 32]),
    }
}

fn thaw() -> Action {
    Action::Thaw {
        delegate: Address::new([5; 32]),
        bump: 253,
        account: Address::new([2; 32]),
        edition: Address::new([4; 32]),
        mint: Address::new([3; 32]),
    }
}

fn approve() -> Action {
    Action::Approve {
        account: Address::new([2; 32]),
        delegate: Address::new([5; 32]),
        owner: Address::new([1; 32]),
        amount: 1,
    }
}

fn revoke() -> Action {
    Action::Revoke { account: Address::new([2; 32]), owner: Address::new([1; 32]) }
}

fn mint() -> Action {
    Action::Mint {
        mint: Address::new([6; 32]),
        to: Address::new([7; 32]),
        authority: Address::new([8; 32]),
        bump: 251,
        amount: 5000,
    }
}

fn same_instruction(ours: &CustodyInstruction, theirs: &Instruction) -> bool {
    ours.program.bytes == theirs.program_id.to_bytes()
        && ours.data == theirs.data
        && ours.accounts.len() == theirs.accounts.len()
        && ours.accounts.iter().zip(theirs.accounts.iter()).all(|(role, meta)| {
            role.address.bytes == meta.pubkey.to_bytes()
                && role.is_signer == meta.is_signer
                && role.is_writable == meta.is_writable
        })
}

#[test]
fn freeze_instruction_names_the_accounts_in_order() {
    let instruction = freeze().instruction().unwrap();
    assert_eq!(instruction.program, Metadata::id());
    assert_eq!(instruction.data, vec![26]);
    assert_eq!(
        instruction.accounts,
        vec![
            AccountRole { address: Address::new([5; 32]), is_signer: true, is_writable: true },
            AccountRole { address: Address::new([2; 32]), is_signer: false, is_writable: true },
            AccountRole { address: Address::new([4; 32]), is_signer: false, is_writable: false },
            AccountRole { address: Address::new([3; 32]), is_signer: false, is_writable: false },
            AccountRole {
                address: Address::new(anchor_spl::token::ID.to_bytes()),
                is_signer: false,
                is_writable: false,
            },
        ]
    );
}

#[test]
fn thaw_instruction_differs_from_freeze_in_its_tag() {
    let freeze = freeze().instruction().unwrap();
    let thaw = thaw().instruction().unwrap();
    assert_eq!(thaw.program, freeze.program);
    assert_eq!(thaw.accounts, freeze.accounts);
    assert_eq!(thaw.data, vec![27]);
}

#[test]
fn token_program_id_is_the_declared_one() {
    let instruction = freeze().instruction().unwrap();
    assert_eq!(
        instruction.accounts[4].address.bytes,
        [
            6, 221, 246, 225, 215, 101, 161, 147, 217, 203, 225, 70, 206, 235, 121, 172, 28, 180,
            133, 237, 95, 91, 55, 145, 58, 140, 245, 133, 126, 255, 0, 169
        ]
    );
    assert_eq!(
        Pubkey::new_from_array(instruction.accounts[4].address.bytes).to_string(),
        "TokenkegQfeZyiNwAJbNbGKPFXCWuBvf9Ss623VQ5DA"
    );
}

#[test]
fn instructions_are_those_of_the_token_metadata_crate() {
    let key = |byte: u8| Pubkey::new_from_array([byte; 32]);
    let theirs = freeze_delegated_account(mpl_token_metadata::ID, key(5), key(2), key(4), key(3));
    assert!(same_instruction(&freeze().instruction().unwrap(), &theirs));
    let theirs = thaw_delegated_account(mpl_token_metadata::ID, key(5), key(2), key(4), key(3));
    assert!(same_instruction(&thaw().instruction().unwrap(), &theirs));
    assert!(!same_instruction(&freeze().instruction().unwrap(), &theirs));
}

#[test]
fn requests_to_the_token_program_have_no_metadata_instruction() {
    assert_eq!(approve().instruction(), None);
    assert_eq!(revoke().instruction(), None);
    assert_eq!(mint().instruction(), None);
}

#[test]
fn authority_seeds_are_the_label_and_the_bump() {
    assert_eq!(authority_seeds(255), vec![b"authority".to_vec(), vec![255]]);
    assert_eq!(authority_seeds(0), vec![b"authority".to_vec(), vec![0]]);
    assert_eq!(freeze().signer_seeds(), vec![b"authority".to_vec(), vec![253]]);
    assert_eq!(thaw().signer_seeds(), vec![b"authority".to_vec(), vec![253]]);
}

#[test]
fn mint_seeds_are_the_label_and_the_bump() {
    assert_eq!(mint_seeds(254), vec![b"mint".to_vec(), vec![254]]);
    assert_eq!(mint().signer_seeds(), vec![b"mint".to_vec(), vec![251]]);
}

#[test]
fn the_owner_signs_without_seeds() {
    assert_eq!(approve().signer_seeds(), Vec::<Vec<u8>>::new());
    assert_eq!(revoke().signer_seeds(), Vec::<Vec<u8>>::new());
}

#[test]
fn seeds_derive_the_authority_that_signs() {
    let program = Pubkey::new_from_array([42; 32]);
    let (authority, bump) = Pubkey::find_program_address(&[b"authority"], &program);
    let seeds = authority_seeds(bump);
    let slices: Vec<&[u8]> = seeds.iter().map(|seed| seed.as_slice()).collect();
    assert_eq!(Pubkey::create_program_address(&slices, &program), Ok(authority));
}
