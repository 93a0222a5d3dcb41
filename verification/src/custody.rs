//! The delegated authority: how the program takes and returns control of a
//! staked asset without ever owning it.
//!
//! Two pairs of requests make an asset untransferable and free it again. The
//! owner approves the program's authority as delegate for exactly one unit of
//! the asset account, and later revokes that. While delegated, the authority
//! asks the token-metadata program to freeze the account, and later to thaw
//! it. The authority is no key that anyone holds: it is derived from a fixed
//! label and one byte, and the program signs as it by naming these seeds.

use vstd::prelude::*;
use crate::address::Address;
use crate::metadata::{metadata_program_id, Metadata};

verus! {

/// The amount of the asset account that the owner delegates: the one token.
pub const DELEGATED_AMOUNT: u64 = 1;

/// A request to the custody layer or to the reward token's mint, with the
/// accounts that it names.
#[derive(Debug, PartialEq, Eq, Clone, Copy)]
pub enum Action {
    /// The `owner` of `account` delegates `amount` of it to `delegate`.
    Approve { account: Address, delegate: Address, owner: Address, amount: u64 },
    /// The `delegate`, an authority of the program derived with `bump`, has
    /// `account` frozen, which holds the one token of `mint` with `edition`.
    Freeze { delegate: Address, bump: u8, account: Address, edition: Address, mint: Address },
    /// The `delegate`, an authority of the program derived with `bump`, has
    /// `account` thawed, which holds the one token of `mint` with `edition`.
    Thaw { delegate: Address, bump: u8, account: Address, edition: Address, mint: Address },
    /// The `owner` of `account` takes the delegation back.
    Revoke { account: Address, owner: Address },
    /// The `authority` over `mint`, an authority of the program derived with
    /// `bump`, has `amount` of the reward token minted to the account `to`.
    Mint { mint: Address, to: Address, authority: Address, bump: u8, amount: u64 },
}

/// An account that an instruction names, with what it may do there.
#[derive(Debug, PartialEq, Eq, Clone, Copy)]
pub struct AccountRole {
    pub address: Address,
    pub is_signer: bool,
    pub is_writable: bool,
}

/// An instruction to a program on the ledger.
#[derive(Debug, PartialEq, Eq, Clone)]
pub struct CustodyInstruction {
    pub program: Address,
    pub accounts: Vec<AccountRole>,
    pub data: Vec<u8>,
}

/// The tag by which the token-metadata program knows a request to freeze a
/// delegated account.
pub const FREEZE_TAG: u8 = 26;

/// The tag by which the token-metadata program knows a request to thaw a
/// delegated account.
pub const THAW_TAG: u8 = 27;

/// The bytes of the token program's identifier, which reads
/// `TokenkegQfeZyiNwAJbNbGKPFXCWuBvf9Ss623VQ5DA` in base 58.
pub open spec fn token_program_id() -> Seq<u8> {
    seq![
        6u8, 221, 246, 225, 215, 101, 161, 147, 217, 203, 225, 70, 206, 235, 121, 172, 28, 180, 133,
        237, 95, 91, 55, 145, 58, 140, 245, 133, 126, 255, 0, 169,
    ]
}

/// Whether `instruction` asks `program` to freeze or thaw, by `tag`, the
/// `token_account` of `mint` and `edition` in the name of `delegate`: the
/// delegate signs and is writable, the token account is writable, the edition,
/// the mint and the token program are only read, and the data is the tag.
pub open spec fn is_delegate_request(
    instruction: CustodyInstruction,
    tag: u8,
    program: Address,
    delegate: Address,
    token_account: Address,
    edition: Address,
    mint: Address,
) -> bool {
    &&& instruction.program == program
    &&& instruction.data@ == seq![tag]
    &&& instruction.accounts@.len() == 5
    &&& instruction.accounts@[0] == (AccountRole {
        address: delegate,
        is_signer: true,
        is_writable: true,
    })
    &&& instruction.accounts@[1] == (AccountRole {
        address: token_account,
        is_signer: false,
        is_writable: true,
    })
    &&& instruction.accounts@[2] == (AccountRole {
        address: edition,
        is_signer: false,
        is_writable: false,
    })
    &&& instruction.accounts@[3] == (AccountRole {
        address: mint,
        is_signer: false,
        is_writable: false,
    })
    &&& instruction.accounts@[4].address@ == token_program_id()
    &&& !instruction.accounts@[4].is_signer
    &&& !instruction.accounts@[4].is_writable
}

/// Calls `freeze_delegated_account` of the token-metadata crate and copies
/// the instruction it builds, field by field. As the crate's source shows, the
/// instruction goes to the given program, names the delegate (signer,
/// writable), the token account (writable), the edition, the mint and the
/// token program (all three read-only), in that order, and its data is the
/// one byte that encodes the instruction's kind, the 27th of the program's
/// instruction set.
#[verifier::external_body]
fn freeze_delegated(
    program: Address,
    delegate: Address,
    token_account: Address,
    edition: Address,
    mint: Address,
) -> (instruction: CustodyInstruction)
    ensures
        is_delegate_request(instruction, FREEZE_TAG, program, delegate, token_account, edition, mint),
{
    let key = mpl_token_metadata::solana_program::pubkey::Pubkey::new_from_array;
    let built = mpl_token_metadata::instruction::freeze_delegated_account(
        key(program.bytes), key(delegate.bytes), key(token_account.bytes), key(edition.bytes), key(mint.bytes));
    CustodyInstruction {
        program: Address { bytes: built.program_id.to_bytes() },
        accounts: built.accounts.iter().map(|a| AccountRole {
            address: Address { bytes: a.pubkey.to_bytes() },
            is_signer: a.is_signer,
            is_writable: a.is_writable,
        }).collect(),
        data: built.data,
    }
}

/// Calls `thaw_delegated_account` of the token-metadata crate and copies the
/// instruction it builds, field by field. It differs from the request to
/// freeze in its data alone: the one byte that encodes the 28th kind of the
/// program's instruction set.
#[verifier::external_body]
fn thaw_delegated(
    program: Address,
    delegate: Address,
    token_account: Address,
    edition: Address,
    mint: Address,
) -> (instruction: CustodyInstruction)
    ensures
        is_delegate_request(instruction, THAW_TAG, program, delegate, token_account, edition, mint),
{
    let key = mpl_token_metadata::solana_program::pubkey::Pubkey::new_from_array;
    let built = mpl_token_metadata::instruction::thaw_delegated_account(
        key(program.bytes), key(delegate.bytes), key(token_account.bytes), key(edition.bytes), key(mint.bytes));
    CustodyInstruction {
        program: Address { bytes: built.program_id.to_bytes() },
        accounts: built.accounts.iter().map(|a| AccountRole {
            address: Address { bytes: a.pubkey.to_bytes() },
            is_signer: a.is_signer,
            is_writable: a.is_writable,
        }).collect(),
        data: built.data,
    }
}

/// The label from which the custody authority is derived: `authority`.
pub open spec fn authority_label() -> Seq<u8> {
    seq![97u8, 117, 116, 104, 111, 114, 105, 116, 121]
}

/// The label from which the mint authority is derived: `mint`.
pub open spec fn mint_label() -> Seq<u8> {
    seq![109u8, 105, 110, 116]
}

/// The seeds of an authority derived from `label` and the byte `bump`: the
/// label, then the byte by itself.
pub open spec fn seeds_of(label: Seq<u8>, bump: u8) -> Seq<Seq<u8>> {
    seq![label, seq![bump]]
}

/// What a list of seeds holds, each seed by its bytes.
pub open spec fn seeds_view(seeds: Vec<Vec<u8>>) -> Seq<Seq<u8>> {
    Seq::new(seeds@.len(), |i: int| seeds@[i]@)
}

/// The seeds by which the program signs as the custody authority.
pub fn authority_seeds(bump: u8) -> (seeds: Vec<Vec<u8>>)
    ensures
        seeds_view(seeds) == seeds_of(authority_label(), bump),
{
    let label: Vec<u8> = vec![97u8, 117, 116, 104, 111, 114, 105, 116, 121];
    let byte: Vec<u8> = vec![bump];
    let seeds: Vec<Vec<u8>> = vec![label, byte];
    assert(seeds@[0]@ =~= authority_label());
    assert(seeds@[1]@ =~= seq![bump]);
    assert(seeds_view(seeds) =~= seeds_of(authority_label(), bump));
    seeds
}

/// The seeds by which the program signs as the mint authority of the reward
/// token.
pub fn mint_seeds(bump: u8) -> (seeds: Vec<Vec<u8>>)
    ensures
        seeds_view(seeds) == seeds_of(mint_label(), bump),
{
    let label: Vec<u8> = vec![109u8, 105, 110, 116];
    let byte: Vec<u8> = vec![bump];
    let seeds: Vec<Vec<u8>> = vec![label, byte];
    assert(seeds@[0]@ =~= mint_label());
    assert(seeds@[1]@ =~= seq![bump]);
    assert(seeds_view(seeds) =~= seeds_of(mint_label(), bump));
    seeds
}

/// The seeds by which the program signs an action: those of the custody
/// authority for freezing and thawing, those of the mint authority for
/// minting. Approving and revoking are signed by the owner and need none.
pub open spec fn signer_seeds_of(action: Action) -> Seq<Seq<u8>> {
    match action {
        Action::Freeze { bump, .. } => seeds_of(authority_label(), bump),
        Action::Thaw { bump, .. } => seeds_of(authority_label(), bump),
        Action::Mint { bump, .. } => seeds_of(mint_label(), bump),
        Action::Approve { .. } => Seq::empty(),
        Action::Revoke { .. } => Seq::empty(),
    }
}

impl Action {
    /// The seeds by which the program signs this action; none where the
    /// owner signs.
    pub fn signer_seeds(&self) -> (seeds: Vec<Vec<u8>>)
        ensures
            seeds_view(seeds) == signer_seeds_of(*self),
    {
        match self {
            Action::Freeze { bump, .. } => authority_seeds(*bump),
            Action::Thaw { bump, .. } => authority_seeds(*bump),
            Action::Mint { bump, .. } => mint_seeds(*bump),
            _ => {
                let seeds: Vec<Vec<u8>> = Vec::new();
                assert(seeds_view(seeds) =~= Seq::<Seq<u8>>::empty());
                seeds
            },
        }
    }

    /// The instruction to the token-metadata program by which this action is
    /// performed, where it is a request to freeze or to thaw; `None` for the
    /// other actions, which go to the token program.
    pub fn instruction(&self) -> (instruction: Option<CustodyInstruction>)
        ensures
            match *self {
                Action::Freeze { delegate, account, edition, mint, .. } => instruction matches Some(
                    built,
                ) && built.program@ == metadata_program_id() && is_delegate_request(
                    built,
                    FREEZE_TAG,
                    built.program,
                    delegate,
                    account,
                    edition,
                    mint,
                ),
                Action::Thaw { delegate, account, edition, mint, .. } => instruction matches Some(
                    built,
                ) && built.program@ == metadata_program_id() && is_delegate_request(
                    built,
                    THAW_TAG,
                    built.program,
                    delegate,
                    account,
                    edition,
                    mint,
                ),
                _ => instruction is None,
            },
    {
        match self {
            Action::Freeze { delegate, account, edition, mint, .. } => Some(
                freeze_delegated(Metadata::id(), *delegate, *account, *edition, *mint),
            ),
            Action::Thaw { delegate, account, edition, mint, .. } => Some(
                thaw_delegated(Metadata::id(), *delegate, *account, *edition, *mint),
            ),
            _ => None,
        }
    }
}

/// What the custody layer holds of one asset account, as far as staking is
/// concerned: who owns it, to whom and how much of it is delegated, and
/// whether it is frozen.
///
/// This is the behaviour that the staking rules expect of the custody layer,
/// not a description of any one implementation of it.
pub struct Custody {
    pub account: Address,
    pub owner: Address,
    pub delegate: Option<Address>,
    pub delegated: u64,
    pub frozen: bool,
}

/// The custody of an asset account after the custody layer has taken a
/// request, or `None` where it refuses the request.
///
/// The owner alone approves and revokes. Freezing and thawing are granted to
/// the delegate alone, and only while something is delegated. Minting the
/// reward, and any request that names another account, leaves the account as
/// it is.
pub open spec fn custody_after(custody: Custody, action: Action) -> Option<Custody> {
    match action {
        Action::Approve { account, delegate, owner, amount } => if account != custody.account {
            Some(custody)
        } else if owner == custody.owner {
            Some(Custody { delegate: Some(delegate), delegated: amount, ..custody })
        } else {
            None
        },
        Action::Revoke { account, owner } => if account != custody.account {
            Some(custody)
        } else if owner == custody.owner {
            Some(Custody { delegate: None, delegated: 0, ..custody })
        } else {
            None
        },
        Action::Freeze { delegate, account, .. } => if account != custody.account {
            Some(custody)
        } else if custody.delegate == Some(delegate) && custody.delegated >= 1 {
            Some(Custody { frozen: true, ..custody })
        } else {
            None
        },
        Action::Thaw { delegate, account, .. } => if account != custody.account {
            Some(custody)
        } else if custody.delegate == Some(delegate) && custody.delegated >= 1 {
            Some(Custody { frozen: false, ..custody })
        } else {
            None
        },
        Action::Mint { .. } => Some(custody),
    }
}

/// The custody of an asset account after the custody layer has taken the
/// requests of `actions` in order, or `None` where it refuses one of them.
pub open spec fn custody_through(custody: Custody, actions: Seq<Action>) -> Option<Custody>
    decreases actions.len(),
{
    if actions.len() == 0 {
        Some(custody)
    } else {
        match custody_after(custody, actions.first()) {
            Some(next) => custody_through(next, actions.drop_first()),
            None => None,
        }
    }
}

/// Freezing and thawing an account are refused to everyone but its delegate:
/// while nothing is delegated, and to whoever the delegation does not name.
pub proof fn delegate_alone_freezes(
    custody: Custody,
    delegate: Address,
    bump: u8,
    edition: Address,
    mint: Address,
)
    requires
        custody.delegate != Some(delegate) || custody.delegated == 0,
    ensures
        custody_after(
            custody,
            Action::Freeze { delegate, bump, account: custody.account, edition, mint },
        ) is None,
        custody_after(
            custody,
            Action::Thaw { delegate, bump, account: custody.account, edition, mint },
        ) is None,
{
}

/// Taking the requests of one list and then those of another is taking the
/// requests of the two lists joined.
pub proof fn custody_through_joined(custody: Custody, first: Seq<Action>, second: Seq<Action>)
    ensures
        custody_through(custody, first + second) == match custody_through(custody, first) {
            Some(between) => custody_through(between, second),
            None => None,
        },
    decreases first.len(),
{
    if first.len() == 0 {
        assert(first + second =~= second);
    } else {
        assert((first + second).first() == first.first());
        assert((first + second).drop_first() =~= first.drop_first() + second);
        match custody_after(custody, first.first()) {
            Some(next) => custody_through_joined(next, first.drop_first(), second),
            None => {},
        }
    }
}

} // verus!
