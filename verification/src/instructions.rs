use vstd::prelude::*;

use crate::accounts::{
    aborts, all_hold, check, decode_failure, first_failure_aborts, derived_check, make_derived_check, duplicate_checks, failure_of, duplicates, find_first_failure, key_views, make_check, outcome, program_account,
    program_account_checks, push_checks, signer, signer_checks, system_account,
    system_account_checks, system_program, system_program_checks, token_account,
    token_account_checks, token_program, token_program_checks, AccountHeader, Check, Loaded,
    MintData, TokenAccountData,
};
use crate::address::{Address, ProgramIds};
use crate::error::{BuiltinError, EscrowError, FrameworkError, ProgramError};
use crate::extensions::{token_account_space, token_account_space_of};
use crate::pda::{
    canonical_program_address,
    associated_token_address, associated_token_seed_list, check_canonical_address,
    check_program_address, find_program_address, seeds_fit_with_bump, escrow_seed_list, escrow_seeds, is_canonical_address,
    is_program_address, receipt_seed_list, receipt_seeds, vault_seed_list, vault_seeds,
};
use crate::state::{DealReceipt, EscrowState, EscrowStatus};

verus! {

/// The accounts of `initialize`, in the order the instruction lists them.
#[derive(Debug)]
pub struct Initialize {
    /// The deal's creator; signs, pays for the new accounts.
    pub sender: AccountHeader,
    /// The wallet that will receive the tokens.
    pub receiver: AccountHeader,
    /// The Token-2022 mint of the deal.
    pub mint: Loaded<MintData>,
    /// The mint account's data as stored, from which the token program
    /// computes the length of the vault.
    pub mint_data: Vec<u8>,
    /// The receipt account to create.
    pub receipt: AccountHeader,
    /// The deal's state account to create.
    pub escrow: AccountHeader,
    /// The vault token account to create.
    pub vault: AccountHeader,
    /// The token program.
    pub token_program: AccountHeader,
    /// The System program.
    pub system_program: AccountHeader,
}

/// The accounts of `deposit`.
#[derive(Debug)]
pub struct Deposit {
    pub sender: AccountHeader,
    pub escrow: Loaded<EscrowState>,
    pub receipt: Loaded<DealReceipt>,
    pub mint: Loaded<MintData>,
    /// The sender's token account the amount comes from.
    pub source: Loaded<TokenAccountData>,
    pub vault: Loaded<TokenAccountData>,
    pub token_program: AccountHeader,
}

/// The accounts of `release`.
#[derive(Debug)]
pub struct Release {
    pub sender: AccountHeader,
    pub receiver: AccountHeader,
    pub escrow: Loaded<EscrowState>,
    pub receipt: Loaded<DealReceipt>,
    pub mint: Loaded<MintData>,
    pub vault: Loaded<TokenAccountData>,
    /// The receiver's associated token account.
    pub receiver_account: Loaded<TokenAccountData>,
    /// The sender's associated token account, which takes any surplus.
    pub sender_account: Loaded<TokenAccountData>,
    pub token_program: AccountHeader,
}

/// The accounts of `cancel`.
#[derive(Debug)]
pub struct Cancel {
    pub sender: AccountHeader,
    pub escrow: Loaded<EscrowState>,
    pub receipt: Loaded<DealReceipt>,
    pub mint: Loaded<MintData>,
    pub vault: Loaded<TokenAccountData>,
    /// The sender's associated token account, which takes the refund.
    pub sender_account: Loaded<TokenAccountData>,
    pub token_program: AccountHeader,
}

/// The stages of `initialize`. Each of the three new accounts is checked and
/// then created before the next is checked; the remaining accounts are
/// checked after the last creation. The stages after the state's creation
/// carry the state's bump.
#[derive(Clone, Copy, Debug, PartialEq, Eq, Structural)]
pub enum InitializeStage {
    /// Load the accounts and check the receipt's address.
    Receipt,
    /// Check the state's address.
    State,
    /// Check the vault's address.
    Vault { escrow_bump: u8 },
    /// Check the remaining constraints.
    Finish { escrow_bump: u8 },
}

/// A requirement whose failure is one of the escrow program's own errors.
pub open spec fn escrow_check(holds: bool, error: EscrowError) -> Check {
    Check { holds, error: ProgramError::Escrow(error), aborts: false }
}

/// A requirement with an escrow error, built in executable code.
pub fn make_escrow_check(holds: bool, error: EscrowError) -> (c: Check)
    ensures
        c == escrow_check(holds, error),
{
    Check { holds, error: ProgramError::Escrow(error), aborts: false }
}

// ---------------------------------------------------------------------------
// The requirements on single accounts.

/// The deal's state lies at the address its seeds and stored bump derive.
pub open spec fn escrow_at_its_address(e: Loaded<EscrowState>, ids: ProgramIds) -> bool {
    e.data matches Ok(s) && is_program_address(e.header.key@, escrow_seed_list(s.sender@, s.deal_id), s.bump, ids.escrow@)
}

/// The deal names the key as its sender.
pub open spec fn escrow_sender_is(e: Loaded<EscrowState>, key: Address) -> bool {
    e.data matches Ok(s) && s.sender@ == key@
}

/// The deal names the key as its receiver.
pub open spec fn escrow_receiver_is(e: Loaded<EscrowState>, key: Address) -> bool {
    e.data matches Ok(s) && s.receiver@ == key@
}

/// The deal names the key as its mint.
pub open spec fn escrow_mint_is(e: Loaded<EscrowState>, key: Address) -> bool {
    e.data matches Ok(s) && s.mint@ == key@
}

/// The deal is in the given status.
pub open spec fn escrow_status_is(e: Loaded<EscrowState>, status: EscrowStatus) -> bool {
    e.data matches Ok(s) && s.status == status
}

/// The deal may still be cancelled: it is created or funded.
pub open spec fn escrow_cancellable(e: Loaded<EscrowState>) -> bool {
    e.data matches Ok(s) && (s.status is Created || s.status is Funded)
}

/// The receipt lies at the canonical address of the deal's receipt seeds.
pub open spec fn receipt_at_its_address(r: AccountHeader, e: Loaded<EscrowState>, ids: ProgramIds) -> bool {
    e.data matches Ok(s) && is_canonical_address(r.key@, receipt_seed_list(s.sender@, s.deal_id), ids.escrow@)
}

/// The receipt's seeds give no address: the lookup of its address panics.
pub open spec fn receipt_seeds_unusable(e: Loaded<EscrowState>, ids: ProgramIds) -> bool {
    e.data matches Ok(s) && canonical_program_address(receipt_seed_list(s.sender@, s.deal_id), ids.escrow@) is None
}

/// The vault's seeds give no address: the lookup of its address panics.
pub open spec fn vault_seeds_unusable(escrow: Address, ids: ProgramIds) -> bool {
    canonical_program_address(vault_seed_list(escrow@), ids.escrow@) is None
}

/// The associated token account's seeds give no address: the lookup of its
/// address panics.
pub open spec fn associated_seeds_unusable(wallet: Address, mint: Address, token_program: Address, ids: ProgramIds) -> bool {
    canonical_program_address(associated_token_seed_list(wallet@, mint@, token_program@), ids.associated_token@) is None
}

/// The receipt records the deal's current status.
pub open spec fn receipt_agrees(r: Loaded<DealReceipt>, e: Loaded<EscrowState>) -> bool {
    r.data matches Ok(rd) && e.data matches Ok(s) && rd.status == s.status
}

/// The vault lies at the canonical address of the deal's vault seeds.
pub open spec fn vault_at_its_address(v: AccountHeader, escrow: Address, ids: ProgramIds) -> bool {
    is_canonical_address(v.key@, vault_seed_list(escrow@), ids.escrow@)
}

/// The token account's owner is the key.
pub open spec fn token_owner_is(t: Loaded<TokenAccountData>, key: Address) -> bool {
    t.data matches Ok(d) && d.owner@ == key@
}

/// The token account holds tokens of the mint.
pub open spec fn token_mint_is(t: Loaded<TokenAccountData>, mint: Address) -> bool {
    t.data matches Ok(d) && d.mint@ == mint@
}

/// The token account lies at the associated token address of the wallet.
pub open spec fn at_associated_address(t: AccountHeader, wallet: Address, mint: Address, token_program: Address, ids: ProgramIds) -> bool {
    is_canonical_address(t.key@, associated_token_seed_list(wallet@, mint@, token_program@), ids.associated_token@)
}

/// The requirements of a token account that the deal's escrow owns as its
/// vault: writable, at its address, owned by the deal, of the deal's mint
/// and held by the token program.
pub open spec fn vault_checks(v: Loaded<TokenAccountData>, escrow: Address, mint: Address, token_program: Address, ids: ProgramIds) -> Seq<Check> {
    seq![
        derived_check(vault_at_its_address(v.header, escrow, ids), vault_seeds_unusable(escrow, ids), FrameworkError::ConstraintSeeds),
        check(v.header.is_writable, FrameworkError::ConstraintMut),
        check(token_owner_is(v, escrow), FrameworkError::ConstraintTokenOwner),
        check(token_mint_is(v, mint), FrameworkError::ConstraintTokenMint),
        check(v.header.owner@ == token_program@, FrameworkError::ConstraintTokenTokenProgram),
    ]
}

/// The requirements of an associated token account of a wallet: held by the
/// token program, owned by the wallet, at the derived address, writable.
pub open spec fn associated_checks(t: Loaded<TokenAccountData>, wallet: Address, mint: Address, token_program: Address, ids: ProgramIds) -> Seq<Check> {
    seq![
        check(t.header.owner@ == token_program@, FrameworkError::ConstraintAssociatedTokenTokenProgram),
        check(token_owner_is(t, wallet), FrameworkError::ConstraintTokenOwner),
        derived_check(at_associated_address(t.header, wallet, mint, token_program, ids), associated_seeds_unusable(wallet, mint, token_program, ids), FrameworkError::ConstraintAssociated),
        check(t.header.is_writable, FrameworkError::ConstraintMut),
    ]
}

/// The requirements on the deal's receipt: at its address, writable and in
/// agreement with the deal.
pub open spec fn receipt_checks(r: Loaded<DealReceipt>, e: Loaded<EscrowState>, ids: ProgramIds) -> Seq<Check> {
    seq![
        derived_check(receipt_at_its_address(r.header, e, ids), receipt_seeds_unusable(e, ids), FrameworkError::ConstraintSeeds),
        check(r.header.is_writable, FrameworkError::ConstraintMut),
        escrow_check(receipt_agrees(r, e), EscrowError::InvalidStatus),
    ]
}

fn escrow_at_its_address_exec(e: &Loaded<EscrowState>, ids: &ProgramIds) -> (r: bool)
    ensures
        r == escrow_at_its_address(*e, *ids),
{
    match &e.data {
        Ok(s) => check_program_address(&e.header.key, escrow_seeds(&s.sender, s.deal_id), s.bump, &ids.escrow),
        Err(_) => false,
    }
}

fn escrow_sender_is_exec(e: &Loaded<EscrowState>, key: &Address) -> (r: bool)
    ensures
        r == escrow_sender_is(*e, *key),
{
    match &e.data {
        Ok(s) => s.sender.same_as(key),
        Err(_) => false,
    }
}

fn escrow_receiver_is_exec(e: &Loaded<EscrowState>, key: &Address) -> (r: bool)
    ensures
        r == escrow_receiver_is(*e, *key),
{
    match &e.data {
        Ok(s) => s.receiver.same_as(key),
        Err(_) => false,
    }
}

fn escrow_mint_is_exec(e: &Loaded<EscrowState>, key: &Address) -> (r: bool)
    ensures
        r == escrow_mint_is(*e, *key),
{
    match &e.data {
        Ok(s) => s.mint.same_as(key),
        Err(_) => false,
    }
}

fn escrow_status_is_exec(e: &Loaded<EscrowState>, status: EscrowStatus) -> (r: bool)
    ensures
        r == escrow_status_is(*e, status),
{
    match &e.data {
        Ok(s) => s.status == status,
        Err(_) => false,
    }
}

fn escrow_cancellable_exec(e: &Loaded<EscrowState>) -> (r: bool)
    ensures
        r == escrow_cancellable(*e),
{
    match &e.data {
        Ok(s) => match s.status {
            EscrowStatus::Created | EscrowStatus::Funded => true,
            _ => false,
        },
        Err(_) => false,
    }
}

fn receipt_address_check(r: &AccountHeader, e: &Loaded<EscrowState>, ids: &ProgramIds) -> (c: Check)
    ensures
        c == derived_check(receipt_at_its_address(*r, *e, *ids), receipt_seeds_unusable(*e, *ids), FrameworkError::ConstraintSeeds),
{
    match &e.data {
        Ok(s) => match find_program_address(&receipt_seeds(&s.sender, s.deal_id), &ids.escrow) {
            Some(p) => make_derived_check(p.0.same_as(&r.key), false, FrameworkError::ConstraintSeeds),
            None => make_derived_check(false, true, FrameworkError::ConstraintSeeds),
        },
        Err(_) => make_derived_check(false, false, FrameworkError::ConstraintSeeds),
    }
}

fn receipt_agrees_exec(r: &Loaded<DealReceipt>, e: &Loaded<EscrowState>) -> (b: bool)
    ensures
        b == receipt_agrees(*r, *e),
{
    match (&r.data, &e.data) {
        (Ok(rd), Ok(s)) => rd.status == s.status,
        _ => false,
    }
}

fn vault_address_check(v: &AccountHeader, escrow: &Address, ids: &ProgramIds) -> (c: Check)
    ensures
        c == derived_check(vault_at_its_address(*v, *escrow, *ids), vault_seeds_unusable(*escrow, *ids), FrameworkError::ConstraintSeeds),
{
    match find_program_address(&vault_seeds(escrow), &ids.escrow) {
        Some(p) => make_derived_check(p.0.same_as(&v.key), false, FrameworkError::ConstraintSeeds),
        None => make_derived_check(false, true, FrameworkError::ConstraintSeeds),
    }
}

fn token_owner_is_exec(t: &Loaded<TokenAccountData>, key: &Address) -> (b: bool)
    ensures
        b == token_owner_is(*t, *key),
{
    match &t.data {
        Ok(d) => d.owner.same_as(key),
        Err(_) => false,
    }
}

fn token_mint_is_exec(t: &Loaded<TokenAccountData>, mint: &Address) -> (b: bool)
    ensures
        b == token_mint_is(*t, *mint),
{
    match &t.data {
        Ok(d) => d.mint.same_as(mint),
        Err(_) => false,
    }
}

fn associated_address_check(t: &AccountHeader, wallet: &Address, mint: &Address, token_program: &Address, ids: &ProgramIds) -> (c: Check)
    ensures
        c == derived_check(at_associated_address(*t, *wallet, *mint, *token_program, *ids), associated_seeds_unusable(*wallet, *mint, *token_program, *ids), FrameworkError::ConstraintAssociated),
{
    match associated_token_address(wallet, mint, token_program, &ids.associated_token) {
        Some(a) => make_derived_check(a.same_as(&t.key), false, FrameworkError::ConstraintAssociated),
        None => make_derived_check(false, true, FrameworkError::ConstraintAssociated),
    }
}

fn vault_group(v: &Loaded<TokenAccountData>, escrow: &Address, mint: &Address, token_program: &Address, ids: &ProgramIds) -> (r: Vec<Check>)
    ensures
        r@ == vault_checks(*v, *escrow, *mint, *token_program, *ids),
{
    let r = vec![
        vault_address_check(&v.header, escrow, ids),
        make_check(v.header.is_writable, FrameworkError::ConstraintMut),
        make_check(token_owner_is_exec(v, escrow), FrameworkError::ConstraintTokenOwner),
        make_check(token_mint_is_exec(v, mint), FrameworkError::ConstraintTokenMint),
        make_check(v.header.owner.same_as(token_program), FrameworkError::ConstraintTokenTokenProgram),
    ];
    assert(r@ =~= vault_checks(*v, *escrow, *mint, *token_program, *ids));
    r
}

fn associated_group(t: &Loaded<TokenAccountData>, wallet: &Address, mint: &Address, token_program: &Address, ids: &ProgramIds) -> (r: Vec<Check>)
    ensures
        r@ == associated_checks(*t, *wallet, *mint, *token_program, *ids),
{
    let r = vec![
        make_check(t.header.owner.same_as(token_program), FrameworkError::ConstraintAssociatedTokenTokenProgram),
        make_check(token_owner_is_exec(t, wallet), FrameworkError::ConstraintTokenOwner),
        associated_address_check(&t.header, wallet, mint, token_program, ids),
        make_check(t.header.is_writable, FrameworkError::ConstraintMut),
    ];
    assert(r@ =~= associated_checks(*t, *wallet, *mint, *token_program, *ids));
    r
}

fn receipt_group(r: &Loaded<DealReceipt>, e: &Loaded<EscrowState>, ids: &ProgramIds) -> (v: Vec<Check>)
    ensures
        v@ == receipt_checks(*r, *e, *ids),
{
    let v = vec![
        receipt_address_check(&r.header, e, ids),
        make_check(r.header.is_writable, FrameworkError::ConstraintMut),
        make_escrow_check(receipt_agrees_exec(r, e), EscrowError::InvalidStatus),
    ];
    assert(v@ =~= receipt_checks(*r, *e, *ids));
    v
}


// ---------------------------------------------------------------------------
// The requirements of each instruction, in the order they are checked: first
// each account is loaded as its type, in the order the instruction lists the
// accounts, then each account's constraints are checked, in the same order.

/// The length of a Token-2022 mint account that carries no extensions.
pub open spec fn base_mint_len() -> u64 {
    82
}

/// Reads `Pack::LEN` of the Token-2022 `Mint` state (spl-token-2022
/// interface), the packed length of a mint without extensions, which its
/// source fixes at 82.
#[verifier::external_body]
pub(crate) fn packed_mint_len() -> (n: u64)
    ensures
        n == base_mint_len(),
{
    <anchor_spl::token_2022::spl_token_2022::state::Mint as anchor_lang::solana_program::program_pack::Pack>::LEN as u64
}

/// The mint has no freeze authority.
pub open spec fn mint_unfreezable(m: Loaded<MintData>) -> bool {
    m.data matches Ok(d) && d.freeze_authority is None
}

fn mint_unfreezable_exec(m: &Loaded<MintData>) -> (r: bool)
    ensures
        r == mint_unfreezable(*m),
{
    match &m.data {
        Ok(d) => d.freeze_authority.is_none(),
        Err(_) => false,
    }
}

/// Loading the accounts of `initialize`: the new accounts are taken as they
/// are, the others are loaded as their types.
pub open spec fn initialize_load_checks(a: Initialize, ids: ProgramIds) -> Seq<Check> {
    signer_checks(a.sender)
    + system_account_checks(a.receiver, ids)
    + token_account_checks(a.mint.header, failure_of(a.mint.data), ids)
    + token_program_checks(a.token_program, ids)
    + system_program_checks(a.system_program, ids)
}

/// The requirements before creating a program account: it lies at the
/// canonical address of its seeds, and where it already holds lamports (so
/// that its creation only tops up its rent) it is not its own payer.
pub open spec fn new_account_checks(target: AccountHeader, payer: AccountHeader, seeds: Seq<Seq<u8>>, ids: ProgramIds) -> Seq<Check> {
    seq![
        derived_check(is_canonical_address(target.key@, seeds, ids.escrow@), canonical_program_address(seeds, ids.escrow@) is None, FrameworkError::ConstraintSeeds),
        check(!(target.lamports > 0 && payer.key@ == target.key@), FrameworkError::TryingToInitPayerAsProgramAccount),
    ]
}

/// The constraints of `initialize` after the new accounts exist: a writable
/// sender, a receiver other than the sender, a mint without extensions or
/// freeze authority held by the token program, and Token-2022.
pub open spec fn initialize_final_checks(a: Initialize, ids: ProgramIds) -> Seq<Check> {
    seq![
        check(a.sender.is_writable, FrameworkError::ConstraintMut),
        escrow_check(a.receiver.key@ != a.sender.key@, EscrowError::SenderEqualsReceiver),
        escrow_check(a.mint_data@.len() == base_mint_len(), EscrowError::UnsupportedMint),
        escrow_check(mint_unfreezable(a.mint), EscrowError::UnsupportedMint),
        check(a.mint.header.owner@ == a.token_program.key@, FrameworkError::ConstraintMintTokenProgram),
        escrow_check(a.token_program.key@ == ids.token_2022@, EscrowError::InvalidTokenProgram),
    ]
}

/// The account that a stage of `initialize` creates.
pub open spec fn stage_target(a: Initialize, stage: InitializeStage) -> AccountHeader {
    match stage {
        InitializeStage::Receipt => a.receipt,
        InitializeStage::State => a.escrow,
        _ => a.vault,
    }
}

/// The seeds of the account that a stage of `initialize` creates.
pub open spec fn stage_seeds(a: Initialize, deal_id: u64, stage: InitializeStage) -> Seq<Seq<u8>> {
    match stage {
        InitializeStage::Receipt => receipt_seed_list(a.sender.key@, deal_id),
        InitializeStage::State => escrow_seed_list(a.sender.key@, deal_id),
        _ => vault_seed_list(a.escrow.key@),
    }
}

/// The requirement that the length of a new account can be computed,
/// rejected with the token program's error where it cannot.
pub open spec fn space_check(space: Result<u64, BuiltinError>) -> Check {
    match space {
        Ok(_) => Check { holds: true, error: ProgramError::Builtin(BuiltinError::InvalidAccountData), aborts: false },
        Err(e) => Check { holds: false, error: ProgramError::Builtin(e), aborts: false },
    }
}

/// The requirement on the vault's length: the token program must be able to
/// compute it from the mint's data.
pub open spec fn vault_space_checks(a: Initialize, ids: ProgramIds) -> Seq<Check> {
    seq![space_check(token_account_space(a.mint.header.owner@, a.mint_data@, ids.token_2022@))]
}

/// The requirement on a new account's length, built in executable code.
pub fn make_space_check(space: Result<u64, BuiltinError>) -> (c: Check)
    ensures
        c == space_check(space),
{
    match space {
        Ok(_) => Check { holds: true, error: ProgramError::Builtin(BuiltinError::InvalidAccountData), aborts: false },
        Err(e) => Check { holds: false, error: ProgramError::Builtin(e), aborts: false },
    }
}

/// The requirements that a stage of `initialize` checks.
pub open spec fn initialize_stage_checks(a: Initialize, deal_id: u64, ids: ProgramIds, stage: InitializeStage) -> Seq<Check> {
    match stage {
        InitializeStage::Receipt => initialize_load_checks(a, ids) + new_account_checks(a.receipt, a.sender, stage_seeds(a, deal_id, stage), ids),
        InitializeStage::Finish { .. } => initialize_final_checks(a, ids),
        InitializeStage::State => new_account_checks(a.escrow, a.sender, stage_seeds(a, deal_id, stage), ids),
        InitializeStage::Vault { .. } => new_account_checks(a.vault, a.sender, stage_seeds(a, deal_id, stage), ids) + vault_space_checks(a, ids),
    }
}

/// All the requirements of `initialize` for a deal id, in order.
pub open spec fn initialize_checks(a: Initialize, deal_id: u64, ids: ProgramIds) -> Seq<Check> {
    initialize_stage_checks(a, deal_id, ids, InitializeStage::Receipt)
    + initialize_stage_checks(a, deal_id, ids, InitializeStage::State)
    + initialize_stage_checks(a, deal_id, ids, InitializeStage::Vault { escrow_bump: 0 })
    + initialize_stage_checks(a, deal_id, ids, InitializeStage::Finish { escrow_bump: 0 })
}

/// The requirements of `deposit`.
pub open spec fn deposit_checks(a: Deposit, ids: ProgramIds) -> Seq<Check> {
    signer_checks(a.sender)
    + program_account_checks(a.escrow.header, failure_of(a.escrow.data), ids)
    + program_account_checks(a.receipt.header, failure_of(a.receipt.data), ids)
    + token_account_checks(a.mint.header, failure_of(a.mint.data), ids)
    + token_account_checks(a.source.header, failure_of(a.source.data), ids)
    + token_account_checks(a.vault.header, failure_of(a.vault.data), ids)
    + token_program_checks(a.token_program, ids)
    + duplicate_checks(seq![a.escrow.header.key@, a.receipt.header.key@, a.source.header.key@, a.vault.header.key@])
    + deposit_escrow_checks(a, ids)
    + receipt_checks(a.receipt, a.escrow, ids)
    + deposit_source_checks(a)
    + vault_checks(a.vault, a.escrow.header.key, a.mint.header.key, a.token_program.key, ids)
    + token_2022_checks(a.token_program, ids)
}

/// The constraints on the deal's state in `deposit`: at its address,
/// writable, the sender's, of the mint, still unfunded.
#[verifier::opaque]
pub open spec fn deposit_escrow_checks(a: Deposit, ids: ProgramIds) -> Seq<Check> {
    seq![
        check(escrow_at_its_address(a.escrow, ids), FrameworkError::ConstraintSeeds),
        check(a.escrow.header.is_writable, FrameworkError::ConstraintMut),
        escrow_check(escrow_sender_is(a.escrow, a.sender.key), EscrowError::UnauthorizedSender),
        escrow_check(escrow_mint_is(a.escrow, a.mint.header.key), EscrowError::InvalidMint),
        escrow_check(escrow_status_is(a.escrow, EscrowStatus::Created), EscrowError::InvalidStatus),
    ]
}

/// The constraints on the mint and the source in `deposit`: the mint belongs
/// to the token program; the source is writable, the sender's, of the mint
/// and held by the token program.
#[verifier::opaque]
pub open spec fn deposit_source_checks(a: Deposit) -> Seq<Check> {
    seq![
        check(a.mint.header.owner@ == a.token_program.key@, FrameworkError::ConstraintMintTokenProgram),
        check(a.source.header.is_writable, FrameworkError::ConstraintMut),
        check(token_owner_is(a.source, a.sender.key), FrameworkError::ConstraintTokenOwner),
        check(token_mint_is(a.source, a.mint.header.key), FrameworkError::ConstraintTokenMint),
        check(a.source.header.owner@ == a.token_program.key@, FrameworkError::ConstraintTokenTokenProgram),
    ]
}

/// The constraints on the sender and the deal's state in `release`: the
/// sender is writable; the state is at its address, writable, the sender's,
/// for the receiver, of the mint, funded, and not closed into itself.
#[verifier::opaque]
pub open spec fn release_escrow_checks(a: Release, ids: ProgramIds) -> Seq<Check> {
    seq![
        check(a.sender.is_writable, FrameworkError::ConstraintMut),
        check(escrow_at_its_address(a.escrow, ids), FrameworkError::ConstraintSeeds),
        check(a.escrow.header.is_writable, FrameworkError::ConstraintMut),
        escrow_check(escrow_sender_is(a.escrow, a.sender.key), EscrowError::UnauthorizedSender),
        escrow_check(escrow_receiver_is(a.escrow, a.receiver.key), EscrowError::InvalidReceiver),
        escrow_check(escrow_mint_is(a.escrow, a.mint.header.key), EscrowError::InvalidMint),
        escrow_check(escrow_status_is(a.escrow, EscrowStatus::Funded), EscrowError::InvalidStatus),
        check(a.escrow.header.key@ != a.sender.key@, FrameworkError::ConstraintClose),
    ]
}

/// The constraints on the sender and the deal's state in `cancel`: the sender
/// is writable; the state is at its address, writable, the sender's, of the
/// mint, created or funded, and not closed into itself.
#[verifier::opaque]
pub open spec fn cancel_escrow_checks(a: Cancel, ids: ProgramIds) -> Seq<Check> {
    seq![
        check(a.sender.is_writable, FrameworkError::ConstraintMut),
        check(escrow_at_its_address(a.escrow, ids), FrameworkError::ConstraintSeeds),
        check(a.escrow.header.is_writable, FrameworkError::ConstraintMut),
        escrow_check(escrow_sender_is(a.escrow, a.sender.key), EscrowError::UnauthorizedSender),
        escrow_check(escrow_mint_is(a.escrow, a.mint.header.key), EscrowError::InvalidMint),
        escrow_check(escrow_cancellable(a.escrow), EscrowError::InvalidStatus),
        check(a.escrow.header.key@ != a.sender.key@, FrameworkError::ConstraintClose),
    ]
}

/// The requirements of `release`.
pub open spec fn release_checks(a: Release, ids: ProgramIds) -> Seq<Check> {
    signer_checks(a.sender)
    + system_account_checks(a.receiver, ids)
    + program_account_checks(a.escrow.header, failure_of(a.escrow.data), ids)
    + program_account_checks(a.receipt.header, failure_of(a.receipt.data), ids)
    + token_account_checks(a.mint.header, failure_of(a.mint.data), ids)
    + token_account_checks(a.vault.header, failure_of(a.vault.data), ids)
    + token_account_checks(a.receiver_account.header, failure_of(a.receiver_account.data), ids)
    + token_account_checks(a.sender_account.header, failure_of(a.sender_account.data), ids)
    + token_program_checks(a.token_program, ids)
    + duplicate_checks(seq![a.escrow.header.key@, a.receipt.header.key@, a.vault.header.key@, a.receiver_account.header.key@, a.sender_account.header.key@])
    + release_escrow_checks(a, ids)
    + receipt_checks(a.receipt, a.escrow, ids)
    + mint_program_checks(a.mint.header, a.token_program)
    + vault_checks(a.vault, a.escrow.header.key, a.mint.header.key, a.token_program.key, ids)
    + associated_checks(a.receiver_account, a.receiver.key, a.mint.header.key, a.token_program.key, ids)
    + associated_checks(a.sender_account, a.sender.key, a.mint.header.key, a.token_program.key, ids)
    + token_2022_checks(a.token_program, ids)
}

/// The requirements of `cancel`.
pub open spec fn cancel_checks(a: Cancel, ids: ProgramIds) -> Seq<Check> {
    signer_checks(a.sender)
    + program_account_checks(a.escrow.header, failure_of(a.escrow.data), ids)
    + program_account_checks(a.receipt.header, failure_of(a.receipt.data), ids)
    + token_account_checks(a.mint.header, failure_of(a.mint.data), ids)
    + token_account_checks(a.vault.header, failure_of(a.vault.data), ids)
    + token_account_checks(a.sender_account.header, failure_of(a.sender_account.data), ids)
    + token_program_checks(a.token_program, ids)
    + duplicate_checks(seq![a.escrow.header.key@, a.receipt.header.key@, a.vault.header.key@, a.sender_account.header.key@])
    + cancel_escrow_checks(a, ids)
    + receipt_checks(a.receipt, a.escrow, ids)
    + mint_program_checks(a.mint.header, a.token_program)
    + vault_checks(a.vault, a.escrow.header.key, a.mint.header.key, a.token_program.key, ids)
    + associated_checks(a.sender_account, a.sender.key, a.mint.header.key, a.token_program.key, ids)
    + token_2022_checks(a.token_program, ids)
}

fn new_account_group(target: &AccountHeader, payer: &AccountHeader, seeds: &Vec<Vec<u8>>, ids: &ProgramIds) -> (r: (Vec<Check>, Option<u8>))
    requires
        seeds_fit_with_bump(seeds.deep_view()),
    ensures
        r.0@ == new_account_checks(*target, *payer, seeds.deep_view(), *ids),
        r.1 is Some <==> is_canonical_address(target.key@, seeds.deep_view(), ids.escrow@),
        r.1 matches Some(b) ==> canonical_program_address(seeds.deep_view(), ids.escrow@) == Some((target.key@, b)),
        r.1 matches Some(b) ==> is_program_address(target.key@, seeds.deep_view(), b, ids.escrow@),
{
    let (bump, unusable) = match find_program_address(seeds, &ids.escrow) {
        Some(p) => if p.0.same_as(&target.key) { (Some(p.1), false) } else { (None, false) },
        None => (None, true),
    };
    let v = vec![
        make_derived_check(bump.is_some(), unusable, FrameworkError::ConstraintSeeds),
        make_check(!(target.lamports > 0 && payer.key.same_as(&target.key)), FrameworkError::TryingToInitPayerAsProgramAccount),
    ];
    assert(v@ =~= new_account_checks(*target, *payer, seeds.deep_view(), *ids));
    (v, bump)
}

/// The requirements of a stage of `initialize`, in the order they are
/// checked, and for a stage that creates an account, the canonical bump of
/// the account where it lies at its canonical address.
fn stage_check_list(a: &Initialize, deal_id: u64, ids: &ProgramIds, stage: InitializeStage) -> (r: (Vec<Check>, Option<u8>))
    ensures
        r.0@ == initialize_stage_checks(*a, deal_id, *ids, stage),
        stage is Finish ==> r.1 is None,
        !(stage is Finish) && all_hold(r.0@) ==> r.1 is Some,
        r.1 matches Some(bump) ==> canonical_program_address(stage_seeds(*a, deal_id, stage), ids.escrow@) == Some((stage_target(*a, stage).key@, bump)),
        r.1 matches Some(bump) ==> is_program_address(stage_target(*a, stage).key@, stage_seeds(*a, deal_id, stage), bump, ids.escrow@),
{
    let (checks, bump) = match stage {
        InitializeStage::Receipt => {
            let mut checks = signer(&a.sender);
            push_checks(&mut checks, system_account(&a.receiver, ids));
            push_checks(&mut checks, token_account(&a.mint.header, decode_failure(&a.mint.data), ids));
            push_checks(&mut checks, token_program(&a.token_program, ids));
            push_checks(&mut checks, system_program(&a.system_program, ids));
            let (group, bump) = new_account_group(&a.receipt, &a.sender, &receipt_seeds(&a.sender.key, deal_id), ids);
            let ghost n = checks@.len();
            push_checks(&mut checks, group);
            proof {
                if all_hold(checks@) {
                    assert(checks@[n as int].holds);
                }
            }
            (checks, bump)
        },
        InitializeStage::State => {
            let (checks, bump) = new_account_group(&a.escrow, &a.sender, &escrow_seeds(&a.sender.key, deal_id), ids);
            proof {
                if all_hold(checks@) {
                    assert(checks@[0].holds);
                }
            }
            (checks, bump)
        },
        InitializeStage::Vault { .. } => {
            let (mut checks, bump) = new_account_group(&a.vault, &a.sender, &vault_seeds(&a.escrow.key), ids);
            let space = vec![make_space_check(token_account_space_of(&a.mint.header.owner, &a.mint_data, &ids.token_2022))];
            assert(space@ =~= vault_space_checks(*a, *ids));
            push_checks(&mut checks, space);
            proof {
                if all_hold(checks@) {
                    assert(checks@[0].holds);
                }
            }
            (checks, bump)
        },
        InitializeStage::Finish { .. } => {
            let checks = vec![
                make_check(a.sender.is_writable, FrameworkError::ConstraintMut),
                make_escrow_check(!a.receiver.key.same_as(&a.sender.key), EscrowError::SenderEqualsReceiver),
                make_escrow_check(a.mint_data.len() as u64 == packed_mint_len(), EscrowError::UnsupportedMint),
                make_escrow_check(mint_unfreezable_exec(&a.mint), EscrowError::UnsupportedMint),
                make_check(a.mint.header.owner.same_as(&a.token_program.key), FrameworkError::ConstraintMintTokenProgram),
                make_escrow_check(a.token_program.key.same_as(&ids.token_2022), EscrowError::InvalidTokenProgram),
            ];
            assert(checks@ =~= initialize_final_checks(*a, *ids));
            (checks, None)
        },
    };
    (checks, bump)
}

/// Whether a stage of `initialize` aborts on the accounts: the lookup of the
/// new account's address finds no address.
pub fn initialize_stage_aborts(a: &Initialize, deal_id: u64, ids: &ProgramIds, stage: InitializeStage) -> (r: bool)
    ensures
        r == aborts(initialize_stage_checks(*a, deal_id, *ids, stage)),
{
    let (checks, _) = stage_check_list(a, deal_id, ids, stage);
    first_failure_aborts(&checks)
}

/// Whether `initialize` aborts on the accounts: the lookup of a new
/// account's address, made before any requirement fails, finds no address.
pub fn initialize_aborts(a: &Initialize, deal_id: u64, ids: &ProgramIds) -> (r: bool)
    ensures
        r == aborts(initialize_checks(*a, deal_id, *ids)),
{
    let (mut checks, _) = stage_check_list(a, deal_id, ids, InitializeStage::Receipt);
    let (c2, _) = stage_check_list(a, deal_id, ids, InitializeStage::State);
    push_checks(&mut checks, c2);
    let (c3, _) = stage_check_list(a, deal_id, ids, InitializeStage::Vault { escrow_bump: 0 });
    push_checks(&mut checks, c3);
    let (c4, _) = stage_check_list(a, deal_id, ids, InitializeStage::Finish { escrow_bump: 0 });
    push_checks(&mut checks, c4);
    first_failure_aborts(&checks)
}

/// Checks what one stage of `initialize` checks. For a stage that creates an
/// account, it also finds the canonical bump of that account.
pub fn validate_initialize_stage(a: &Initialize, deal_id: u64, ids: &ProgramIds, stage: InitializeStage) -> (r: Result<Option<u8>, ProgramError>)
    requires
        !aborts(initialize_stage_checks(*a, deal_id, *ids, stage)),
    ensures
        match r {
            Ok(b) => {
                &&& outcome(initialize_stage_checks(*a, deal_id, *ids, stage)) is Ok
                &&& (stage is Finish) == (b is None)
                &&& b matches Some(bump) ==> canonical_program_address(stage_seeds(*a, deal_id, stage), ids.escrow@) == Some((stage_target(*a, stage).key@, bump))
                &&& b matches Some(bump) ==> is_program_address(stage_target(*a, stage).key@, stage_seeds(*a, deal_id, stage), bump, ids.escrow@)
            },
            Err(e) => outcome(initialize_stage_checks(*a, deal_id, *ids, stage)) == Err::<(), ProgramError>(e),
        },
{
    let (checks, bump) = stage_check_list(a, deal_id, ids, stage);
    match find_first_failure(&checks) {
        Some(e) => Err(e),
        None => {
            match stage {
                InitializeStage::Finish { .. } => Ok(None),
                _ => {
                    proof {
                        crate::accounts::lemma_first_failure_none(checks@);
                    }
                    match bump {
                        Some(b) => Ok(Some(b)),
                        None => vstd::pervasive::unreached(),
                    }
                },
            }
        },
    }
}

/// The mint belongs to the given token program.
pub open spec fn mint_program_checks(mint: AccountHeader, token_program: AccountHeader) -> Seq<Check> {
    seq![check(mint.owner@ == token_program.key@, FrameworkError::ConstraintMintTokenProgram)]
}

/// The token program is Token-2022.
pub open spec fn token_2022_checks(token_program: AccountHeader, ids: ProgramIds) -> Seq<Check> {
    seq![escrow_check(token_program.key@ == ids.token_2022@, EscrowError::InvalidTokenProgram)]
}

fn mint_program_group(mint: &AccountHeader, token_program: &AccountHeader) -> (r: Vec<Check>)
    ensures
        r@ == mint_program_checks(*mint, *token_program),
{
    let r = vec![make_check(mint.owner.same_as(&token_program.key), FrameworkError::ConstraintMintTokenProgram)];
    assert(r@ =~= mint_program_checks(*mint, *token_program));
    r
}

fn token_2022_group(token_program: &AccountHeader, ids: &ProgramIds) -> (r: Vec<Check>)
    ensures
        r@ == token_2022_checks(*token_program, *ids),
{
    let r = vec![make_escrow_check(token_program.key.same_as(&ids.token_2022), EscrowError::InvalidTokenProgram)];
    assert(r@ =~= token_2022_checks(*token_program, *ids));
    r
}

/// The requirements of `deposit`, in the order they are checked.
fn deposit_check_list(a: &Deposit, ids: &ProgramIds) -> (checks: Vec<Check>)
    ensures
        checks@ == deposit_checks(*a, *ids),
{
    let mut checks = signer(&a.sender);
    push_checks(&mut checks, program_account(&a.escrow.header, decode_failure(&a.escrow.data), ids));
    push_checks(&mut checks, program_account(&a.receipt.header, decode_failure(&a.receipt.data), ids));
    push_checks(&mut checks, token_account(&a.mint.header, decode_failure(&a.mint.data), ids));
    push_checks(&mut checks, token_account(&a.source.header, decode_failure(&a.source.data), ids));
    push_checks(&mut checks, token_account(&a.vault.header, decode_failure(&a.vault.data), ids));
    push_checks(&mut checks, token_program(&a.token_program, ids));
    let written = vec![a.escrow.header.key, a.receipt.header.key, a.source.header.key, a.vault.header.key];
    assert(key_views(written@) =~= seq![a.escrow.header.key@, a.receipt.header.key@, a.source.header.key@, a.vault.header.key@]);
    push_checks(&mut checks, duplicates(&written));
    let escrow = vec![
        make_check(escrow_at_its_address_exec(&a.escrow, ids), FrameworkError::ConstraintSeeds),
        make_check(a.escrow.header.is_writable, FrameworkError::ConstraintMut),
        make_escrow_check(escrow_sender_is_exec(&a.escrow, &a.sender.key), EscrowError::UnauthorizedSender),
        make_escrow_check(escrow_mint_is_exec(&a.escrow, &a.mint.header.key), EscrowError::InvalidMint),
        make_escrow_check(escrow_status_is_exec(&a.escrow, EscrowStatus::Created), EscrowError::InvalidStatus),
    ];
    assert(escrow@ =~= deposit_escrow_checks(*a, *ids)) by {
        reveal(deposit_escrow_checks);
    }
    push_checks(&mut checks, escrow);
    push_checks(&mut checks, receipt_group(&a.receipt, &a.escrow, ids));
    let source = vec![
        make_check(a.mint.header.owner.same_as(&a.token_program.key), FrameworkError::ConstraintMintTokenProgram),
        make_check(a.source.header.is_writable, FrameworkError::ConstraintMut),
        make_check(token_owner_is_exec(&a.source, &a.sender.key), FrameworkError::ConstraintTokenOwner),
        make_check(token_mint_is_exec(&a.source, &a.mint.header.key), FrameworkError::ConstraintTokenMint),
        make_check(a.source.header.owner.same_as(&a.token_program.key), FrameworkError::ConstraintTokenTokenProgram),
    ];
    assert(source@ =~= deposit_source_checks(*a)) by {
        reveal(deposit_source_checks);
    }
    push_checks(&mut checks, source);
    push_checks(&mut checks, vault_group(&a.vault, &a.escrow.header.key, &a.mint.header.key, &a.token_program.key, ids));
    push_checks(&mut checks, token_2022_group(&a.token_program, ids));
    checks
}

/// Whether `deposit` aborts on the accounts: a lookup of a derived address
/// that it makes before any requirement fails finds no address.
pub fn deposit_aborts(a: &Deposit, ids: &ProgramIds) -> (r: bool)
    ensures
        r == aborts(deposit_checks(*a, *ids)),
{
    first_failure_aborts(&deposit_check_list(a, ids))
}

/// Checks the accounts of `deposit`.
pub fn validate_deposit(a: &Deposit, ids: &ProgramIds) -> (r: Result<(), ProgramError>)
    requires
        !aborts(deposit_checks(*a, *ids)),
    ensures
        r == outcome(deposit_checks(*a, *ids)),
{
    match find_first_failure(&deposit_check_list(a, ids)) {
        Some(e) => Err(e),
        None => Ok(()),
    }
}

/// The requirements of `release`, in the order they are checked.
fn release_check_list(a: &Release, ids: &ProgramIds) -> (checks: Vec<Check>)
    ensures
        checks@ == release_checks(*a, *ids),
{
    let mut checks = signer(&a.sender);
    push_checks(&mut checks, system_account(&a.receiver, ids));
    push_checks(&mut checks, program_account(&a.escrow.header, decode_failure(&a.escrow.data), ids));
    push_checks(&mut checks, program_account(&a.receipt.header, decode_failure(&a.receipt.data), ids));
    push_checks(&mut checks, token_account(&a.mint.header, decode_failure(&a.mint.data), ids));
    push_checks(&mut checks, token_account(&a.vault.header, decode_failure(&a.vault.data), ids));
    push_checks(&mut checks, token_account(&a.receiver_account.header, decode_failure(&a.receiver_account.data), ids));
    push_checks(&mut checks, token_account(&a.sender_account.header, decode_failure(&a.sender_account.data), ids));
    push_checks(&mut checks, token_program(&a.token_program, ids));
    let written = vec![a.escrow.header.key, a.receipt.header.key, a.vault.header.key, a.receiver_account.header.key, a.sender_account.header.key];
    assert(key_views(written@) =~= seq![a.escrow.header.key@, a.receipt.header.key@, a.vault.header.key@, a.receiver_account.header.key@, a.sender_account.header.key@]);
    push_checks(&mut checks, duplicates(&written));
    let escrow = vec![
        make_check(a.sender.is_writable, FrameworkError::ConstraintMut),
        make_check(escrow_at_its_address_exec(&a.escrow, ids), FrameworkError::ConstraintSeeds),
        make_check(a.escrow.header.is_writable, FrameworkError::ConstraintMut),
        make_escrow_check(escrow_sender_is_exec(&a.escrow, &a.sender.key), EscrowError::UnauthorizedSender),
        make_escrow_check(escrow_receiver_is_exec(&a.escrow, &a.receiver.key), EscrowError::InvalidReceiver),
        make_escrow_check(escrow_mint_is_exec(&a.escrow, &a.mint.header.key), EscrowError::InvalidMint),
        make_escrow_check(escrow_status_is_exec(&a.escrow, EscrowStatus::Funded), EscrowError::InvalidStatus),
        make_check(!a.escrow.header.key.same_as(&a.sender.key), FrameworkError::ConstraintClose),
    ];
    assert(escrow@ =~= release_escrow_checks(*a, *ids)) by {
        reveal(release_escrow_checks);
    }
    push_checks(&mut checks, escrow);
    push_checks(&mut checks, receipt_group(&a.receipt, &a.escrow, ids));
    push_checks(&mut checks, mint_program_group(&a.mint.header, &a.token_program));
    push_checks(&mut checks, vault_group(&a.vault, &a.escrow.header.key, &a.mint.header.key, &a.token_program.key, ids));
    push_checks(&mut checks, associated_group(&a.receiver_account, &a.receiver.key, &a.mint.header.key, &a.token_program.key, ids));
    push_checks(&mut checks, associated_group(&a.sender_account, &a.sender.key, &a.mint.header.key, &a.token_program.key, ids));
    push_checks(&mut checks, token_2022_group(&a.token_program, ids));
    checks
}

/// Whether `release` aborts on the accounts: a lookup of a derived address
/// that it makes before any requirement fails finds no address.
pub fn release_aborts(a: &Release, ids: &ProgramIds) -> (r: bool)
    ensures
        r == aborts(release_checks(*a, *ids)),
{
    first_failure_aborts(&release_check_list(a, ids))
}

/// Checks the accounts of `release`.
pub fn validate_release(a: &Release, ids: &ProgramIds) -> (r: Result<(), ProgramError>)
    requires
        !aborts(release_checks(*a, *ids)),
    ensures
        r == outcome(release_checks(*a, *ids)),
{
    match find_first_failure(&release_check_list(a, ids)) {
        Some(e) => Err(e),
        None => Ok(()),
    }
}

/// The requirements of `cancel`, in the order they are checked.
fn cancel_check_list(a: &Cancel, ids: &ProgramIds) -> (checks: Vec<Check>)
    ensures
        checks@ == cancel_checks(*a, *ids),
{
    let mut checks = signer(&a.sender);
    push_checks(&mut checks, program_account(&a.escrow.header, decode_failure(&a.escrow.data), ids));
    push_checks(&mut checks, program_account(&a.receipt.header, decode_failure(&a.receipt.data), ids));
    push_checks(&mut checks, token_account(&a.mint.header, decode_failure(&a.mint.data), ids));
    push_checks(&mut checks, token_account(&a.vault.header, decode_failure(&a.vault.data), ids));
    push_checks(&mut checks, token_account(&a.sender_account.header, decode_failure(&a.sender_account.data), ids));
    push_checks(&mut checks, token_program(&a.token_program, ids));
    let written = vec![a.escrow.header.key, a.receipt.header.key, a.vault.header.key, a.sender_account.header.key];
    assert(key_views(written@) =~= seq![a.escrow.header.key@, a.receipt.header.key@, a.vault.header.key@, a.sender_account.header.key@]);
    push_checks(&mut checks, duplicates(&written));
    let escrow = vec![
        make_check(a.sender.is_writable, FrameworkError::ConstraintMut),
        make_check(escrow_at_its_address_exec(&a.escrow, ids), FrameworkError::ConstraintSeeds),
        make_check(a.escrow.header.is_writable, FrameworkError::ConstraintMut),
        make_escrow_check(escrow_sender_is_exec(&a.escrow, &a.sender.key), EscrowError::UnauthorizedSender),
        make_escrow_check(escrow_mint_is_exec(&a.escrow, &a.mint.header.key), EscrowError::InvalidMint),
        make_escrow_check(escrow_cancellable_exec(&a.escrow), EscrowError::InvalidStatus),
        make_check(!a.escrow.header.key.same_as(&a.sender.key), FrameworkError::ConstraintClose),
    ];
    assert(escrow@ =~= cancel_escrow_checks(*a, *ids)) by {
        reveal(cancel_escrow_checks);
    }
    push_checks(&mut checks, escrow);
    push_checks(&mut checks, receipt_group(&a.receipt, &a.escrow, ids));
    push_checks(&mut checks, mint_program_group(&a.mint.header, &a.token_program));
    push_checks(&mut checks, vault_group(&a.vault, &a.escrow.header.key, &a.mint.header.key, &a.token_program.key, ids));
    push_checks(&mut checks, associated_group(&a.sender_account, &a.sender.key, &a.mint.header.key, &a.token_program.key, ids));
    push_checks(&mut checks, token_2022_group(&a.token_program, ids));
    checks
}

/// Whether `cancel` aborts on the accounts: a lookup of a derived address
/// that it makes before any requirement fails finds no address.
pub fn cancel_aborts(a: &Cancel, ids: &ProgramIds) -> (r: bool)
    ensures
        r == aborts(cancel_checks(*a, *ids)),
{
    first_failure_aborts(&cancel_check_list(a, ids))
}

/// Checks the accounts of `cancel`.
pub fn validate_cancel(a: &Cancel, ids: &ProgramIds) -> (r: Result<(), ProgramError>)
    requires
        !aborts(cancel_checks(*a, *ids)),
    ensures
        r == outcome(cancel_checks(*a, *ids)),
{
    match find_first_failure(&cancel_check_list(a, ids)) {
        Some(e) => Err(e),
        None => Ok(()),
    }
}

} // verus!
