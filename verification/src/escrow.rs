use vstd::prelude::*;

use crate::accounts::{aborts, lemma_aborts_append, lemma_aborts_fails, lemma_first_failure_none, lemma_outcome_append, outcome};
use crate::address::{Address, ProgramIds};
use crate::error::{EscrowError, ProgramError};
use crate::extensions::{base_token_account_len, plain_token_account_len, token_account_space, token_account_space_of};
use crate::instructions::{
    cancel_checks, deposit_checks, initialize_checks, initialize_final_checks,
    initialize_stage_checks, initialize_stage_aborts, initialize_aborts, deposit_aborts, release_aborts, cancel_aborts, release_checks, stage_seeds, stage_target, validate_cancel,
    validate_deposit, validate_initialize_stage, validate_release, Cancel, Deposit, Initialize,
    InitializeStage, Release,
};
use crate::pda::{
    canonical_program_address, escrow_seed_list, escrow_seeds, is_program_address, receipt_seeds,
    vault_seeds, with_bump,
};
use crate::state::{DealReceipt, EscrowState, EscrowStatus};
use crate::token_cpi::{
    close_vault, is_transfer, is_vault_close, transfer_from_vault, vault_transfer_is,
    TokenTransfer, VaultClose,
};

verus! {

/// The deal's state with another status.
pub open spec fn with_status(s: EscrowState, status: EscrowStatus) -> EscrowState {
    EscrowState { status, ..s }
}

/// The bump of the canonical address of the seeds.
pub open spec fn canonical_bump(seeds: Seq<Seq<u8>>, program_id: Seq<u8>) -> u8 {
    match canonical_program_address(seeds, program_id) {
        Some(p) => p.1,
        None => 0,
    }
}

// ---------------------------------------------------------------------------
// initialize

/// The accounts that `initialize` creates.
#[derive(Clone, Copy, Debug, PartialEq, Eq, Structural)]
pub enum NewAccount {
    Receipt,
    State,
    Vault,
}

/// The token account that the vault becomes once created.
#[derive(Clone, Copy, Debug)]
pub struct TokenAccountInit {
    pub mint: Address,
    pub owner: Address,
}

/// The creation of a program-derived account, which its seeds sign for.
#[derive(Debug)]
pub struct AccountCreation {
    pub kind: NewAccount,
    pub address: Address,
    /// The program that will own the account.
    pub owner: Address,
    /// The wallet that pays the account's rent.
    pub payer: Address,
    /// The address already holds lamports: the creation tops up the rent
    /// instead of funding it.
    pub prefunded: bool,
    /// The seeds and bump of the address.
    pub signer_seeds: Vec<Vec<u8>>,
    /// For the vault: the token account to initialize it as.
    pub token_account: Option<TokenAccountInit>,
    /// The length of the account's data, whose rent the payer funds.
    pub space: u64,
}

/// The length of the type discriminator that starts each of the escrow's
/// own accounts.
pub open spec fn discriminator_len() -> u64 {
    8
}

/// The encoded length of a deal's state: three keys, the amount, the deal
/// id, the bump and the status.
pub open spec fn escrow_state_len() -> u64 {
    (3 * 32 + 8 + 8 + 1 + 1) as u64
}

/// The encoded length of a receipt: its status.
pub open spec fn deal_receipt_len() -> u64 {
    1
}

/// The length of the data of an account that `initialize` creates: the
/// discriminator and the encoded receipt or state, or a token account
/// without extensions for the vault.
pub open spec fn account_space_spec(kind: NewAccount) -> u64 {
    match kind {
        NewAccount::Receipt => (discriminator_len() + deal_receipt_len()) as u64,
        NewAccount::State => (discriminator_len() + escrow_state_len()) as u64,
        NewAccount::Vault => base_token_account_len(),
    }
}

/// The length of the data of an account that `initialize` creates.
pub fn account_space(kind: NewAccount) -> (n: u64)
    ensures
        n == account_space_spec(kind),
        kind is Receipt ==> n == 9,
        kind is State ==> n == 122,
        kind is Vault ==> n == 165,
{
    match kind {
        NewAccount::Receipt => 8 + 1,
        NewAccount::State => 8 + (3 * 32 + 8 + 8 + 1 + 1),
        NewAccount::Vault => plain_token_account_len(),
    }
}

/// The length that a stage of `initialize` gives the account it creates.
pub open spec fn stage_space(a: Initialize, ids: ProgramIds, stage: InitializeStage) -> u64 {
    match stage {
        InitializeStage::Receipt => account_space_spec(NewAccount::Receipt),
        InitializeStage::State => account_space_spec(NewAccount::State),
        _ => match token_account_space(a.mint.header.owner@, a.mint_data@, ids.token_2022@) {
            Ok(n) => n,
            Err(_) => 0,
        },
    }
}

/// The data written into a new deal's accounts.
#[derive(Debug)]
pub struct NewDeal {
    pub state: EscrowState,
    pub receipt: DealReceipt,
}

/// What a stage of `initialize` asks for: an account creation, after which
/// the next stage runs, or the data of the new deal.
#[derive(Debug)]
pub enum InitializeAction {
    Create(AccountCreation, InitializeStage),
    Complete(NewDeal),
}

/// The kind of account a stage creates.
pub open spec fn stage_kind(stage: InitializeStage) -> NewAccount {
    match stage {
        InitializeStage::Receipt => NewAccount::Receipt,
        InitializeStage::State => NewAccount::State,
        _ => NewAccount::Vault,
    }
}

/// The stage after a creation: the state's creation passes on its bump.
pub open spec fn next_stage(stage: InitializeStage, bump: u8) -> InitializeStage {
    match stage {
        InitializeStage::Receipt => InitializeStage::State,
        InitializeStage::State => InitializeStage::Vault { escrow_bump: bump },
        InitializeStage::Vault { escrow_bump } => InitializeStage::Finish { escrow_bump },
        InitializeStage::Finish { escrow_bump } => InitializeStage::Finish { escrow_bump },
    }
}

/// Whether a stage of `initialize` succeeds, and if not, why.
pub open spec fn initialize_stage_result(a: Initialize, deal_id: u64, amount: u64, ids: ProgramIds, stage: InitializeStage) -> Result<(), ProgramError> {
    match outcome(initialize_stage_checks(a, deal_id, ids, stage)) {
        Err(e) => Err(e),
        Ok(_) => if stage is Finish && amount == 0 {
            Err(ProgramError::Escrow(EscrowError::AmountMustBePositive))
        } else {
            Ok(())
        },
    }
}

/// The creation is the one a stage of `initialize` asks for.
pub open spec fn creation_is(c: AccountCreation, a: Initialize, deal_id: u64, ids: ProgramIds, stage: InitializeStage) -> bool {
    let target = stage_target(a, stage);
    let seeds = stage_seeds(a, deal_id, stage);
    &&& c.kind == stage_kind(stage)
    &&& c.address@ == target.key@
    &&& c.owner@ == (if stage is Receipt || stage is State { ids.escrow@ } else { a.token_program.key@ })
    &&& c.payer@ == a.sender.key@
    &&& c.prefunded == (target.lamports > 0)
    &&& c.space == stage_space(a, ids, stage)
    &&& c.signer_seeds.deep_view() == seeds.push(seq![canonical_bump(seeds, ids.escrow@)])
    &&& if stage is Receipt || stage is State {
        c.token_account is None
    } else {
        c.token_account matches Some(t) && t.mint@ == a.mint.header.key@ && t.owner@ == a.escrow.key@
    }
}

/// The deal that `initialize` creates, with the given bump of its state.
pub open spec fn new_state(a: Initialize, deal_id: u64, amount: u64, bump: u8) -> EscrowState {
    EscrowState {
        sender: a.sender.key,
        receiver: a.receiver.key,
        mint: a.mint.header.key,
        amount,
        deal_id,
        bump,
        status: EscrowStatus::Created,
    }
}

/// The action is the one a stage of `initialize` owes on success.
pub open spec fn stage_action_is(act: InitializeAction, a: Initialize, deal_id: u64, amount: u64, ids: ProgramIds, stage: InitializeStage) -> bool {
    match stage {
        InitializeStage::Finish { escrow_bump } => act matches InitializeAction::Complete(d) && d.state == new_state(a, deal_id, amount, escrow_bump) && d.receipt.status == EscrowStatus::Created,
        _ => {
            &&& act matches InitializeAction::Create(c, next) && creation_is(c, a, deal_id, ids, stage) && next == next_stage(stage, canonical_bump(stage_seeds(a, deal_id, stage), ids.escrow@))
            &&& is_program_address(stage_target(a, stage).key@, stage_seeds(a, deal_id, stage), canonical_bump(stage_seeds(a, deal_id, stage), ids.escrow@), ids.escrow@)
        },
    }
}

/// Runs one stage of `initialize`: checks what the stage checks, then asks
/// for the stage's account creation, or, at the last stage, requires a
/// positive amount and gives the new deal.
pub fn initialize_step(accounts: &Initialize, deal_id: u64, amount: u64, ids: &ProgramIds, stage: InitializeStage) -> (r: Result<InitializeAction, ProgramError>)
    requires
        !aborts(initialize_stage_checks(*accounts, deal_id, *ids, stage)),
    ensures
        r is Ok <==> initialize_stage_result(*accounts, deal_id, amount, *ids, stage) is Ok,
        r matches Err(e) ==> initialize_stage_result(*accounts, deal_id, amount, *ids, stage) == Err::<(), ProgramError>(e),
        r matches Ok(act) ==> stage_action_is(act, *accounts, deal_id, amount, *ids, stage),
{
    let bump = match validate_initialize_stage(accounts, deal_id, ids, stage) {
        Ok(b) => b,
        Err(e) => return Err(e),
    };
    match stage {
        InitializeStage::Finish { escrow_bump } => {
            if amount == 0 {
                return Err(ProgramError::Escrow(EscrowError::AmountMustBePositive));
            }
            let state = EscrowState {
                sender: accounts.sender.key,
                receiver: accounts.receiver.key,
                mint: accounts.mint.header.key,
                amount,
                deal_id,
                bump: escrow_bump,
                status: EscrowStatus::Created,
            };
            Ok(InitializeAction::Complete(NewDeal { state, receipt: DealReceipt { status: EscrowStatus::Created } }))
        },
        InitializeStage::Receipt => {
            let b = bump.unwrap();
            let creation = AccountCreation {
                kind: NewAccount::Receipt,
                address: accounts.receipt.key,
                owner: ids.escrow,
                payer: accounts.sender.key,
                prefunded: accounts.receipt.lamports > 0,
                signer_seeds: with_bump(receipt_seeds(&accounts.sender.key, deal_id), b),
                token_account: None,
                space: account_space(NewAccount::Receipt),
            };
            Ok(InitializeAction::Create(creation, InitializeStage::State))
        },
        InitializeStage::State => {
            let b = bump.unwrap();
            let creation = AccountCreation {
                kind: NewAccount::State,
                address: accounts.escrow.key,
                owner: ids.escrow,
                payer: accounts.sender.key,
                prefunded: accounts.escrow.lamports > 0,
                signer_seeds: with_bump(escrow_seeds(&accounts.sender.key, deal_id), b),
                token_account: None,
                space: account_space(NewAccount::State),
            };
            Ok(InitializeAction::Create(creation, InitializeStage::Vault { escrow_bump: b }))
        },
        InitializeStage::Vault { escrow_bump } => {
            let b = bump.unwrap();
            proof {
                let c = initialize_stage_checks(*accounts, deal_id, *ids, stage);
                lemma_first_failure_none(c);
                assert(c[c.len() - 1].holds);
            }
            let space = match token_account_space_of(&accounts.mint.header.owner, &accounts.mint_data, &ids.token_2022) {
                Ok(n) => n,
                Err(_) => vstd::pervasive::unreached(),
            };
            let creation = AccountCreation {
                kind: NewAccount::Vault,
                address: accounts.vault.key,
                owner: accounts.token_program.key,
                payer: accounts.sender.key,
                prefunded: accounts.vault.lamports > 0,
                signer_seeds: with_bump(vault_seeds(&accounts.escrow.key), b),
                token_account: Some(TokenAccountInit { mint: accounts.mint.header.key, owner: accounts.escrow.key }),
                space,
            };
            Ok(InitializeAction::Create(creation, InitializeStage::Finish { escrow_bump }))
        },
    }
}

/// What `initialize` asks for when every account creation succeeds: the
/// three creations in order, and the data of the new deal.
#[derive(Debug)]
pub struct InitializeOutcome {
    pub receipt_account: AccountCreation,
    pub state_account: AccountCreation,
    pub vault_account: AccountCreation,
    pub state: EscrowState,
    pub receipt: DealReceipt,
}

/// Whether `initialize` succeeds when every account creation does, and if
/// not, why.
pub open spec fn initialize_result(a: Initialize, deal_id: u64, amount: u64, ids: ProgramIds) -> Result<(), ProgramError> {
    match outcome(initialize_checks(a, deal_id, ids)) {
        Err(e) => Err(e),
        Ok(_) => if amount == 0 {
            Err(ProgramError::Escrow(EscrowError::AmountMustBePositive))
        } else {
            Ok(())
        },
    }
}

/// The deal that `initialize` creates: its state's bump is the canonical one.
pub open spec fn initial_state(a: Initialize, deal_id: u64, amount: u64, ids: ProgramIds) -> EscrowState {
    new_state(a, deal_id, amount, canonical_bump(escrow_seed_list(a.sender.key@, deal_id), ids.escrow@))
}

/// The outcome is the one `initialize` owes on success.
pub open spec fn initialized_as(o: InitializeOutcome, a: Initialize, deal_id: u64, amount: u64, ids: ProgramIds) -> bool {
    &&& creation_is(o.receipt_account, a, deal_id, ids, InitializeStage::Receipt)
    &&& creation_is(o.state_account, a, deal_id, ids, InitializeStage::State)
    &&& creation_is(o.vault_account, a, deal_id, ids, InitializeStage::Vault { escrow_bump: o.state.bump })
    &&& o.state == initial_state(a, deal_id, amount, ids)
    &&& o.receipt.status == EscrowStatus::Created
    &&& is_program_address(a.escrow.key@, escrow_seed_list(a.sender.key@, deal_id), o.state.bump, ids.escrow@)
}

/// Opens a deal, running its stages in order as if every account creation
/// succeeded: checks the accounts, requires a positive amount, and gives the
/// creations of the receipt, the state and the vault and the new deal.
pub fn initialize(accounts: &Initialize, deal_id: u64, amount: u64, ids: &ProgramIds) -> (r: Result<InitializeOutcome, ProgramError>)
    requires
        !aborts(initialize_checks(*accounts, deal_id, *ids)),
    ensures
        r is Ok <==> initialize_result(*accounts, deal_id, amount, *ids) is Ok,
        r matches Err(e) ==> initialize_result(*accounts, deal_id, amount, *ids) == Err::<(), ProgramError>(e),
        r matches Ok(o) ==> initialized_as(o, *accounts, deal_id, amount, *ids),
{
    let ghost a = *accounts;
    let ghost c1 = initialize_stage_checks(a, deal_id, *ids, InitializeStage::Receipt);
    let ghost c2 = initialize_stage_checks(a, deal_id, *ids, InitializeStage::State);
    let ghost c4 = initialize_final_checks(a, *ids);
    proof {
        lemma_outcome_append(c1 + c2 + initialize_stage_checks(a, deal_id, *ids, InitializeStage::Vault { escrow_bump: 0 }), c4);
        lemma_outcome_append(c1 + c2, initialize_stage_checks(a, deal_id, *ids, InitializeStage::Vault { escrow_bump: 0 }));
        lemma_outcome_append(c1, c2);
        lemma_aborts_append(c1 + c2 + initialize_stage_checks(a, deal_id, *ids, InitializeStage::Vault { escrow_bump: 0 }), c4);
        lemma_aborts_append(c1 + c2, initialize_stage_checks(a, deal_id, *ids, InitializeStage::Vault { escrow_bump: 0 }));
        lemma_aborts_append(c1, c2);
        lemma_aborts_fails(c1);
        lemma_aborts_fails(c2);
        lemma_aborts_fails(initialize_stage_checks(a, deal_id, *ids, InitializeStage::Vault { escrow_bump: 0 }));
        lemma_aborts_fails(c1 + c2);
    }
    let receipt_account = match initialize_step(accounts, deal_id, amount, ids, InitializeStage::Receipt)? {
        InitializeAction::Create(c, _) => c,
        InitializeAction::Complete(_) => vstd::pervasive::unreached(),
    };
    let (state_account, vault_stage) = match initialize_step(accounts, deal_id, amount, ids, InitializeStage::State)? {
        InitializeAction::Create(c, next) => (c, next),
        InitializeAction::Complete(_) => vstd::pervasive::unreached(),
    };
    let (vault_account, finish_stage) = match initialize_step(accounts, deal_id, amount, ids, vault_stage)? {
        InitializeAction::Create(c, next) => (c, next),
        InitializeAction::Complete(_) => vstd::pervasive::unreached(),
    };
    let deal = match initialize_step(accounts, deal_id, amount, ids, finish_stage)? {
        InitializeAction::Complete(d) => d,
        InitializeAction::Create(_, _) => vstd::pervasive::unreached(),
    };
    Ok(InitializeOutcome { receipt_account, state_account, vault_account, state: deal.state, receipt: deal.receipt })
}

// ---------------------------------------------------------------------------
// deposit

/// What `deposit` asks for: the sender's transfer of the amount into the
/// vault, then the deal and its receipt marked funded.
#[derive(Debug)]
pub struct DepositOutcome {
    pub transfer: TokenTransfer,
    pub state: EscrowState,
    pub receipt: DealReceipt,
}

/// Whether `deposit` succeeds, and if not, why.
pub open spec fn deposit_result(a: Deposit, ids: ProgramIds) -> Result<(), ProgramError> {
    outcome(deposit_checks(a, ids))
}

/// The outcome is the one `deposit` owes on success.
pub open spec fn deposited_as(o: DepositOutcome, a: Deposit) -> bool {
    &&& a.escrow.data matches Ok(s)
    &&& a.mint.data matches Ok(m)
    &&& is_transfer(o.transfer, a.token_program.key, a.source.header.key, a.mint.header.key, a.vault.header.key, a.sender.key, s.amount, m.decimals)
    &&& o.transfer.signer_seeds is None
    &&& o.state == with_status(s, EscrowStatus::Funded)
    &&& o.receipt.status == EscrowStatus::Funded
}

/// Accepted `deposit` accounts hold a deal and a mint.
proof fn lemma_deposit_loaded(a: Deposit, ids: ProgramIds)
    requires
        outcome(deposit_checks(a, ids)) is Ok,
    ensures
        a.escrow.data is Ok,
        a.mint.data is Ok,
{
    let c = deposit_checks(a, ids);
    lemma_first_failure_none(c);
    assert(c[3].holds);
    assert(c[9].holds);
}

/// Funds a deal: checks the accounts and asks for the sender's transfer of
/// the deal's amount into the vault.
pub fn deposit(accounts: &Deposit, ids: &ProgramIds) -> (r: Result<DepositOutcome, ProgramError>)
    requires
        !aborts(deposit_checks(*accounts, *ids)),
    ensures
        r is Ok <==> deposit_result(*accounts, *ids) is Ok,
        r matches Err(e) ==> deposit_result(*accounts, *ids) == Err::<(), ProgramError>(e),
        r matches Ok(o) ==> deposited_as(o, *accounts),
{
    if let Err(e) = validate_deposit(accounts, ids) {
        return Err(e);
    }
    proof {
        lemma_deposit_loaded(*accounts, *ids);
    }
    let s = accounts.escrow.data.unwrap();
    let m = accounts.mint.data.unwrap();
    let transfer = TokenTransfer {
        token_program: accounts.token_program.key,
        from: accounts.source.header.key,
        mint: accounts.mint.header.key,
        to: accounts.vault.header.key,
        authority: accounts.sender.key,
        amount: s.amount,
        decimals: m.decimals,
        signer_seeds: None,
    };
    let state = EscrowState { status: EscrowStatus::Funded, ..s };
    Ok(DepositOutcome { transfer, state, receipt: DealReceipt { status: EscrowStatus::Funded } })
}

// ---------------------------------------------------------------------------
// release

/// What `release` asks for: the amount to the receiver, any surplus in the
/// vault back to the sender, the vault closed into the sender, the receipt
/// marked released and the deal's state closed into the sender.
#[derive(Debug)]
pub struct ReleaseOutcome {
    /// The amount to the receiver's associated account (none for a zero
    /// amount).
    pub to_receiver: Option<TokenTransfer>,
    /// What the vault holds beyond the amount, to the sender's associated
    /// account (none when there is no surplus).
    pub surplus_to_sender: Option<TokenTransfer>,
    pub close: VaultClose,
    /// The deal's final state, before its account is closed.
    pub state: EscrowState,
    pub receipt: DealReceipt,
    /// The wallet that receives the rent of the deal's closed state account.
    pub state_rent_to: Address,
}

/// Whether `release` succeeds, and if not, why.
pub open spec fn release_result(a: Release, ids: ProgramIds) -> Result<(), ProgramError> {
    match outcome(release_checks(a, ids)) {
        Err(e) => Err(e),
        Ok(_) => if a.vault.data matches Ok(v) && a.escrow.data matches Ok(s) && v.amount < s.amount {
            Err(ProgramError::Escrow(EscrowError::InvalidVaultBalance))
        } else {
            Ok(())
        },
    }
}

/// The outcome is the one `release` owes on success.
pub open spec fn released_as(o: ReleaseOutcome, a: Release) -> bool {
    &&& a.escrow.data matches Ok(s)
    &&& a.vault.data matches Ok(v)
    &&& a.mint.data matches Ok(m)
    &&& vault_transfer_is(o.to_receiver, a.escrow.header.key, s, a.vault.header.key, a.mint.header.key, m.decimals, a.receiver_account.header.key, a.token_program.key, s.amount)
    &&& v.amount >= s.amount
    &&& vault_transfer_is(o.surplus_to_sender, a.escrow.header.key, s, a.vault.header.key, a.mint.header.key, m.decimals, a.sender_account.header.key, a.token_program.key, (v.amount - s.amount) as u64)
    &&& is_vault_close(o.close, a.escrow.header.key, s, a.vault.header.key, a.sender.key, a.token_program.key)
    &&& o.state == with_status(s, EscrowStatus::Released)
    &&& o.receipt.status == EscrowStatus::Released
    &&& o.state_rent_to@ == a.sender.key@
}

/// Accepted `release` accounts hold a deal, a mint and a vault.
pub(crate) proof fn lemma_release_loaded(a: Release, ids: ProgramIds)
    requires
        outcome(release_checks(a, ids)) is Ok,
    ensures
        a.escrow.data is Ok,
        a.mint.data is Ok,
        a.vault.data is Ok,
{
    let c = release_checks(a, ids);
    lemma_first_failure_none(c);
    assert(c[4].holds);
    assert(c[10].holds);
    assert(c[13].holds);
}

/// Completes a funded deal: checks the accounts, requires the vault to hold
/// at least the amount, and asks to pay the amount to the receiver, return
/// any surplus to the sender and close the vault and the deal.
pub fn release(accounts: &Release, ids: &ProgramIds) -> (r: Result<ReleaseOutcome, ProgramError>)
    requires
        !aborts(release_checks(*accounts, *ids)),
    ensures
        r is Ok <==> release_result(*accounts, *ids) is Ok,
        r matches Err(e) ==> release_result(*accounts, *ids) == Err::<(), ProgramError>(e),
        r matches Ok(o) ==> released_as(o, *accounts),
{
    if let Err(e) = validate_release(accounts, ids) {
        return Err(e);
    }
    proof {
        lemma_release_loaded(*accounts, *ids);
    }
    let s = accounts.escrow.data.unwrap();
    let v = accounts.vault.data.unwrap();
    let m = accounts.mint.data.unwrap();
    let surplus = match v.amount.checked_sub(s.amount) {
        Some(x) => x,
        None => return Err(ProgramError::Escrow(EscrowError::InvalidVaultBalance)),
    };
    let escrow_key = accounts.escrow.header.key;
    let to_receiver = transfer_from_vault(
        &escrow_key,
        &s,
        &accounts.vault.header.key,
        &accounts.mint.header.key,
        m.decimals,
        &accounts.receiver_account.header.key,
        &accounts.token_program.key,
        s.amount,
    );
    let surplus_to_sender = transfer_from_vault(
        &escrow_key,
        &s,
        &accounts.vault.header.key,
        &accounts.mint.header.key,
        m.decimals,
        &accounts.sender_account.header.key,
        &accounts.token_program.key,
        surplus,
    );
    let close = close_vault(&escrow_key, &s, &accounts.vault.header.key, &accounts.sender.key, &accounts.token_program.key);
    Ok(ReleaseOutcome {
        to_receiver,
        surplus_to_sender,
        close,
        state: EscrowState { status: EscrowStatus::Released, ..s },
        receipt: DealReceipt { status: EscrowStatus::Released },
        state_rent_to: accounts.sender.key,
    })
}

// ---------------------------------------------------------------------------
// cancel

/// What `cancel` asks for: everything in the vault back to the sender, the
/// vault closed into the sender, the receipt marked cancelled and the deal's
/// state closed into the sender.
#[derive(Debug)]
pub struct CancelOutcome {
    /// The vault's whole balance to the sender's associated account (none
    /// for an empty vault).
    pub refund: Option<TokenTransfer>,
    pub close: VaultClose,
    pub state: EscrowState,
    pub receipt: DealReceipt,
    pub state_rent_to: Address,
}

/// Whether `cancel` succeeds, and if not, why.
pub open spec fn cancel_result(a: Cancel, ids: ProgramIds) -> Result<(), ProgramError> {
    match outcome(cancel_checks(a, ids)) {
        Err(e) => Err(e),
        Ok(_) => if a.vault.data matches Ok(v) && a.escrow.data matches Ok(s) && s.status is Funded && v.amount < s.amount {
            Err(ProgramError::Escrow(EscrowError::InvalidVaultBalance))
        } else {
            Ok(())
        },
    }
}

/// The outcome is the one `cancel` owes on success.
pub open spec fn cancelled_as(o: CancelOutcome, a: Cancel) -> bool {
    &&& a.escrow.data matches Ok(s)
    &&& a.vault.data matches Ok(v)
    &&& a.mint.data matches Ok(m)
    &&& vault_transfer_is(o.refund, a.escrow.header.key, s, a.vault.header.key, a.mint.header.key, m.decimals, a.sender_account.header.key, a.token_program.key, v.amount)
    &&& is_vault_close(o.close, a.escrow.header.key, s, a.vault.header.key, a.sender.key, a.token_program.key)
    &&& o.state == with_status(s, EscrowStatus::Cancelled)
    &&& o.receipt.status == EscrowStatus::Cancelled
    &&& o.state_rent_to@ == a.sender.key@
}

/// Accepted `cancel` accounts hold a deal, a mint and a vault.
proof fn lemma_cancel_loaded(a: Cancel, ids: ProgramIds)
    requires
        outcome(cancel_checks(a, ids)) is Ok,
    ensures
        a.escrow.data is Ok,
        a.mint.data is Ok,
        a.vault.data is Ok,
{
    let c = cancel_checks(a, ids);
    lemma_first_failure_none(c);
    assert(c[3].holds);
    assert(c[9].holds);
    assert(c[12].holds);
}

/// Calls off a deal: checks the accounts, requires a funded vault to hold at
/// least the amount, and asks to return the vault's balance to the sender and
/// close the vault and the deal.
pub fn cancel(accounts: &Cancel, ids: &ProgramIds) -> (r: Result<CancelOutcome, ProgramError>)
    requires
        !aborts(cancel_checks(*accounts, *ids)),
    ensures
        r is Ok <==> cancel_result(*accounts, *ids) is Ok,
        r matches Err(e) ==> cancel_result(*accounts, *ids) == Err::<(), ProgramError>(e),
        r matches Ok(o) ==> cancelled_as(o, *accounts),
{
    if let Err(e) = validate_cancel(accounts, ids) {
        return Err(e);
    }
    proof {
        lemma_cancel_loaded(*accounts, *ids);
    }
    let s = accounts.escrow.data.unwrap();
    let v = accounts.vault.data.unwrap();
    let m = accounts.mint.data.unwrap();
    if s.status == EscrowStatus::Funded && v.amount < s.amount {
        return Err(ProgramError::Escrow(EscrowError::InvalidVaultBalance));
    }
    let escrow_key = accounts.escrow.header.key;
    let refund = transfer_from_vault(
        &escrow_key,
        &s,
        &accounts.vault.header.key,
        &accounts.mint.header.key,
        m.decimals,
        &accounts.sender_account.header.key,
        &accounts.token_program.key,
        v.amount,
    );
    let close = close_vault(&escrow_key, &s, &accounts.vault.header.key, &accounts.sender.key, &accounts.token_program.key);
    Ok(CancelOutcome {
        refund,
        close,
        state: EscrowState { status: EscrowStatus::Cancelled, ..s },
        receipt: DealReceipt { status: EscrowStatus::Cancelled },
        state_rent_to: accounts.sender.key,
    })
}

} // verus!

verus! {

/// Runs `deposit` where it runs to an end, and gives `None` where it aborts
/// instead: where a lookup of a derived address that it makes before any
/// requirement fails finds no address, as the lookup panics.
pub fn try_deposit(accounts: &Deposit, ids: &ProgramIds) -> (r: Option<Result<DepositOutcome, ProgramError>>)
    ensures
        r is None <==> aborts(deposit_checks(*accounts, *ids)),
        r matches Some(x) ==> (x is Ok <==> deposit_result(*accounts, *ids) is Ok),
        r matches Some(x) ==> (x matches Err(e) ==> deposit_result(*accounts, *ids) == Err::<(), ProgramError>(e)),
        r matches Some(x) ==> (x matches Ok(o) ==> deposited_as(o, *accounts)),
{
    if deposit_aborts(accounts, ids) {
        None
    } else {
        Some(deposit(accounts, ids))
    }
}

} // verus!

verus! {

/// Runs `release` where it runs to an end, and gives `None` where it aborts
/// instead: where a lookup of a derived address that it makes before any
/// requirement fails finds no address, as the lookup panics.
pub fn try_release(accounts: &Release, ids: &ProgramIds) -> (r: Option<Result<ReleaseOutcome, ProgramError>>)
    ensures
        r is None <==> aborts(release_checks(*accounts, *ids)),
        r matches Some(x) ==> (x is Ok <==> release_result(*accounts, *ids) is Ok),
        r matches Some(x) ==> (x matches Err(e) ==> release_result(*accounts, *ids) == Err::<(), ProgramError>(e)),
        r matches Some(x) ==> (x matches Ok(o) ==> released_as(o, *accounts)),
{
    if release_aborts(accounts, ids) {
        None
    } else {
        Some(release(accounts, ids))
    }
}

} // verus!

verus! {

/// Runs `cancel` where it runs to an end, and gives `None` where it aborts
/// instead: where a lookup of a derived address that it makes before any
/// requirement fails finds no address, as the lookup panics.
pub fn try_cancel(accounts: &Cancel, ids: &ProgramIds) -> (r: Option<Result<CancelOutcome, ProgramError>>)
    ensures
        r is None <==> aborts(cancel_checks(*accounts, *ids)),
        r matches Some(x) ==> (x is Ok <==> cancel_result(*accounts, *ids) is Ok),
        r matches Some(x) ==> (x matches Err(e) ==> cancel_result(*accounts, *ids) == Err::<(), ProgramError>(e)),
        r matches Some(x) ==> (x matches Ok(o) ==> cancelled_as(o, *accounts)),
{
    if cancel_aborts(accounts, ids) {
        None
    } else {
        Some(cancel(accounts, ids))
    }
}

} // verus!

verus! {

/// Runs one stage of `initialize` where it runs to an end, and gives `None`
/// where it aborts instead: where the lookup of the new account's address
/// finds no address, as the lookup panics.
pub fn try_initialize_step(accounts: &Initialize, deal_id: u64, amount: u64, ids: &ProgramIds, stage: InitializeStage) -> (r: Option<Result<InitializeAction, ProgramError>>)
    ensures
        r is None <==> aborts(initialize_stage_checks(*accounts, deal_id, *ids, stage)),
        r matches Some(x) ==> (x is Ok <==> initialize_stage_result(*accounts, deal_id, amount, *ids, stage) is Ok),
        r matches Some(x) ==> (x matches Err(e) ==> initialize_stage_result(*accounts, deal_id, amount, *ids, stage) == Err::<(), ProgramError>(e)),
        r matches Some(x) ==> (x matches Ok(act) ==> stage_action_is(act, *accounts, deal_id, amount, *ids, stage)),
{
    if initialize_stage_aborts(accounts, deal_id, ids, stage) {
        None
    } else {
        Some(initialize_step(accounts, deal_id, amount, ids, stage))
    }
}

/// Runs `initialize` where it runs to an end, and gives `None` where it
/// aborts instead: where the lookup of a new account's address, made before
/// any requirement fails, finds no address.
pub fn try_initialize(accounts: &Initialize, deal_id: u64, amount: u64, ids: &ProgramIds) -> (r: Option<Result<InitializeOutcome, ProgramError>>)
    ensures
        r is None <==> aborts(initialize_checks(*accounts, deal_id, *ids)),
        r matches Some(x) ==> (x is Ok <==> initialize_result(*accounts, deal_id, amount, *ids) is Ok),
        r matches Some(x) ==> (x matches Err(e) ==> initialize_result(*accounts, deal_id, amount, *ids) == Err::<(), ProgramError>(e)),
        r matches Some(x) ==> (x matches Ok(o) ==> initialized_as(o, *accounts, deal_id, amount, *ids)),
{
    let aborted = initialize_aborts(accounts, deal_id, ids);
    if aborted {
        None
    } else {
        Some(initialize(accounts, deal_id, amount, ids))
    }
}

} // verus!
