use std::str::FromStr;

use anchor_lang::prelude::Pubkey;
use anchor_lang::solana_program::program_option::COption;
use anchor_lang::solana_program::program_pack::Pack;
use anchor_spl::token_2022::spl_token_2022::extension::mint_close_authority::MintCloseAuthority;
use anchor_spl::token_2022::spl_token_2022::extension::non_transferable::NonTransferable;
use anchor_spl::token_2022::spl_token_2022::extension::{BaseStateWithExtensionsMut, ExtensionType, StateWithExtensionsMut};
use anchor_spl::token_2022::spl_token_2022::state::{Account as TokenAccountState, Mint as MintState};
use escrow::accounts::{AccountHeader, DecodeError, Loaded, MintData, TokenAccountData};
use escrow::address::{Address, ProgramIds};
use escrow::error::{BuiltinError, EscrowError, FrameworkError, ProgramError};
use escrow::escrow::{
    account_space, cancel, deposit, initialize, initialize_step, release, try_cancel, try_deposit, try_initialize,
    try_initialize_step, try_release, InitializeAction, NewAccount,
};
use escrow::instructions::{
    cancel_aborts, deposit_aborts, initialize_aborts, initialize_stage_aborts, release_aborts, Cancel, Deposit, Initialize,
    InitializeStage, Release,
};
use escrow::state::{DealReceipt, EscrowState, EscrowStatus};

const AMOUNT: u64 = 1_000_000;
const DEAL_ID: u64 = 7;
const DECIMALS: u8 = 6;
const SUPPLY: u64 = 10_000_000;

fn addr(p: &Pubkey) -> Address {
    Address::new(p.to_bytes())
}

fn program_id() -> Pubkey {
    Pubkey::from_str("5yumooWcYbtWgi5KwiJnbMkqsMJjhDvw3JsJGgY25hg2").unwrap()
}

fn ids() -> ProgramIds {
    ProgramIds {
        escrow: addr(&program_id()),
        system: addr(&anchor_lang::system_program::ID),
        token: addr(&anchor_spl::token::ID),
        token_2022: addr(&anchor_spl::token_2022::ID),
        associated_token: addr(&anchor_spl::associated_token::ID),
    }
}

fn wallet(n: u8) -> Pubkey {
    Pubkey::new_from_array([n; 32])
}

fn header(key: &Pubkey, owner: &Pubkey) -> AccountHeader {
    AccountHeader {
        key: addr(key),
        owner: addr(owner),
        lamports: 2_000_000,
        is_signer: false,
        is_writable: true,
        executable: false,
        data_len: 0,
    }
}

fn program(key: &Pubkey) -> AccountHeader {
    AccountHeader {
        key: addr(key),
        owner: addr(&anchor_lang::system_program::ID),
        lamports: 1,
        is_signer: false,
        is_writable: false,
        executable: true,
        data_len: 0,
    }
}

/// The accounts of one deal between a sender and a receiver.
#[derive(Clone, Copy)]
struct Deal {
    sender: Pubkey,
    receiver: Pubkey,
    mint: Pubkey,
    deal_id: u64,
    state: Pubkey,
    bump: u8,
    receipt: Pubkey,
    vault: Pubkey,
    source: Pubkey,
    destination: Pubkey,
}

impl Deal {
    fn new(sender: Pubkey, deal_id: u64) -> Deal {
        let pid = program_id();
        let receiver = wallet(2);
        let mint = wallet(3);
        let le = deal_id.to_le_bytes();
        let (state, bump) = Pubkey::find_program_address(&[b"escrow", sender.as_ref(), &le], &pid);
        let (receipt, _) = Pubkey::find_program_address(&[b"used", sender.as_ref(), &le], &pid);
        let (vault, _) = Pubkey::find_program_address(&[b"vault", state.as_ref()], &pid);
        let t22 = anchor_spl::token_2022::ID;
        let source = anchor_spl::associated_token::get_associated_token_address_with_program_id(&sender, &mint, &t22);
        let destination = anchor_spl::associated_token::get_associated_token_address_with_program_id(&receiver, &mint, &t22);
        Deal { sender, receiver, mint, deal_id, state, bump, receipt, vault, source, destination }
    }

    fn sender_header(&self) -> AccountHeader {
        let mut h = header(&self.sender, &anchor_lang::system_program::ID);
        h.is_signer = true;
        h
    }

    fn mint_account(&self) -> Loaded<MintData> {
        let mut h = header(&self.mint, &anchor_spl::token_2022::ID);
        h.data_len = 82;
        h.is_writable = false;
        Loaded { header: h, data: Ok(MintData { freeze_authority: None, decimals: DECIMALS }) }
    }

    fn state_data(&self, status: EscrowStatus) -> EscrowState {
        EscrowState {
            sender: addr(&self.sender),
            receiver: addr(&self.receiver),
            mint: addr(&self.mint),
            amount: AMOUNT,
            deal_id: self.deal_id,
            bump: self.bump,
            status,
        }
    }

    fn state_account(&self, status: EscrowStatus) -> Loaded<EscrowState> {
        Loaded { header: header(&self.state, &program_id()), data: Ok(self.state_data(status)) }
    }

    fn receipt_account(&self, status: EscrowStatus) -> Loaded<DealReceipt> {
        Loaded { header: header(&self.receipt, &program_id()), data: Ok(DealReceipt { status }) }
    }

    fn token_account(&self, key: &Pubkey, owner: &Pubkey, amount: u64) -> Loaded<TokenAccountData> {
        Loaded {
            header: header(key, &anchor_spl::token_2022::ID),
            data: Ok(TokenAccountData { mint: addr(&self.mint), owner: addr(owner), amount }),
        }
    }

    fn initialize_accounts(&self) -> Initialize {
        let fresh = |key: &Pubkey| {
            let mut h = header(key, &anchor_lang::system_program::ID);
            h.lamports = 0;
            h
        };
        Initialize {
            sender: self.sender_header(),
            receiver: header(&self.receiver, &anchor_lang::system_program::ID),
            mint: self.mint_account(),
            mint_data: plain_mint_bytes(&self.sender),
            receipt: fresh(&self.receipt),
            escrow: fresh(&self.state),
            vault: fresh(&self.vault),
            token_program: program(&anchor_spl::token_2022::ID),
            system_program: program(&anchor_lang::system_program::ID),
        }
    }

    fn deposit_accounts(&self, status: EscrowStatus, source_balance: u64, vault_balance: u64) -> Deposit {
        Deposit {
            sender: self.sender_header(),
            escrow: self.state_account(status),
            receipt: self.receipt_account(status),
            mint: self.mint_account(),
            source: self.token_account(&self.source, &self.sender, source_balance),
            vault: self.token_account(&self.vault, &self.state, vault_balance),
            token_program: program(&anchor_spl::token_2022::ID),
        }
    }

    fn release_accounts(&self, status: EscrowStatus, vault_balance: u64) -> Release {
        Release {
            sender: self.sender_header(),
            receiver: header(&self.receiver, &anchor_lang::system_program::ID),
            escrow: self.state_account(status),
            receipt: self.receipt_account(status),
            mint: self.mint_account(),
            vault: self.token_account(&self.vault, &self.state, vault_balance),
            receiver_account: self.token_account(&self.destination, &self.receiver, 0),
            sender_account: self.token_account(&self.source, &self.sender, SUPPLY - AMOUNT),
            token_program: program(&anchor_spl::token_2022::ID),
        }
    }

    fn cancel_accounts(&self, status: EscrowStatus, vault_balance: u64) -> Cancel {
        Cancel {
            sender: self.sender_header(),
            escrow: self.state_account(status),
            receipt: self.receipt_account(status),
            mint: self.mint_account(),
            vault: self.token_account(&self.vault, &self.state, vault_balance),
            sender_account: self.token_account(&self.source, &self.sender, SUPPLY - AMOUNT),
            token_program: program(&anchor_spl::token_2022::ID),
        }
    }
}

fn deal() -> Deal {
    Deal::new(wallet(1), DEAL_ID)
}

/// The data of a Token-2022 mint without extensions.
fn plain_mint_bytes(authority: &Pubkey) -> Vec<u8> {
    let mut buf = vec![0u8; MintState::LEN];
    MintState::pack(mint_state(authority), &mut buf).unwrap();
    buf
}

fn mint_state(authority: &Pubkey) -> MintState {
    MintState {
        mint_authority: COption::Some(*authority),
        supply: SUPPLY,
        decimals: DECIMALS,
        is_initialized: true,
        freeze_authority: COption::None,
    }
}

/// The data of a Token-2022 mint with one extension of the given type.
fn mint_bytes_with(authority: &Pubkey, extension: ExtensionType) -> Vec<u8> {
    let size = ExtensionType::try_calculate_account_len::<MintState>(&[extension]).unwrap();
    let mut buf = vec![0u8; size];
    let mut state = StateWithExtensionsMut::<MintState>::unpack_uninitialized(&mut buf).unwrap();
    match extension {
        ExtensionType::NonTransferable => {
            state.init_extension::<NonTransferable>(true).unwrap();
        }
        _ => {
            state.init_extension::<MintCloseAuthority>(true).unwrap();
        }
    }
    state.base = mint_state(authority);
    state.pack_base();
    state.init_account_type().unwrap();
    buf
}

fn escrow_err(e: EscrowError) -> ProgramError {
    ProgramError::Escrow(e)
}

fn framework_err(e: FrameworkError) -> ProgramError {
    ProgramError::Framework(e)
}

fn escrow_signer_seeds(d: &Deal) -> Vec<Vec<u8>> {
    vec![b"escrow".to_vec(), d.sender.to_bytes().to_vec(), d.deal_id.to_le_bytes().to_vec(), vec![d.bump]]
}

#[test]
fn initialize_records_the_deal() {
    let d = deal();
    let o = initialize(&d.initialize_accounts(), DEAL_ID, AMOUNT, &ids()).unwrap();
    assert!(!o.receipt_account.prefunded && !o.state_account.prefunded && !o.vault_account.prefunded);
    assert_eq!(o.state.sender.bytes, d.sender.to_bytes());
    assert_eq!(o.state.receiver.bytes, d.receiver.to_bytes());
    assert_eq!(o.state.mint.bytes, d.mint.to_bytes());
    assert_eq!(o.state.amount, AMOUNT);
    assert_eq!(o.state.deal_id, DEAL_ID);
    assert_eq!(o.state.bump, d.bump);
    assert_eq!(o.state.status, EscrowStatus::Created);
    assert_eq!(o.receipt.status, EscrowStatus::Created);
    assert_eq!(o.state_account.signer_seeds, escrow_signer_seeds(&d));
    assert_eq!(o.state_account.kind, NewAccount::State);
    assert_eq!(o.state_account.address.bytes, d.state.to_bytes());
    assert_eq!(o.state_account.owner.bytes, program_id().to_bytes());
    assert_eq!(o.state_account.payer.bytes, d.sender.to_bytes());
    assert!(!o.state_account.prefunded);
    assert!(o.state_account.token_account.is_none());
    assert_eq!(o.receipt_account.kind, NewAccount::Receipt);
    assert_eq!(o.receipt_account.address.bytes, d.receipt.to_bytes());
    assert_eq!(o.vault_account.kind, NewAccount::Vault);
    assert_eq!(o.vault_account.address.bytes, d.vault.to_bytes());
    assert_eq!(o.vault_account.owner.bytes, anchor_spl::token_2022::ID.to_bytes());
    let token = o.vault_account.token_account.unwrap();
    assert_eq!(token.mint.bytes, d.mint.to_bytes());
    assert_eq!(token.owner.bytes, d.state.to_bytes());
    let (_, receipt_bump) = Pubkey::find_program_address(&[b"used", d.sender.as_ref(), &DEAL_ID.to_le_bytes()], &program_id());
    assert_eq!(o.receipt_account.signer_seeds, vec![b"used".to_vec(), d.sender.to_bytes().to_vec(), DEAL_ID.to_le_bytes().to_vec(), vec![receipt_bump]]);
    let (_, vault_bump) = Pubkey::find_program_address(&[b"vault", d.state.as_ref()], &program_id());
    assert_eq!(o.vault_account.signer_seeds, vec![b"vault".to_vec(), d.state.to_bytes().to_vec(), vec![vault_bump]]);
}

#[test]
fn deposit_moves_the_amount_into_the_vault() {
    let d = deal();
    let o = deposit(&d.deposit_accounts(EscrowStatus::Created, SUPPLY, 0), &ids()).unwrap();
    assert_eq!(o.transfer.from.bytes, d.source.to_bytes());
    assert_eq!(o.transfer.to.bytes, d.vault.to_bytes());
    assert_eq!(o.transfer.mint.bytes, d.mint.to_bytes());
    assert_eq!(o.transfer.authority.bytes, d.sender.to_bytes());
    assert_eq!(o.transfer.token_program.bytes, anchor_spl::token_2022::ID.to_bytes());
    assert_eq!(o.transfer.amount, AMOUNT);
    assert_eq!(o.transfer.decimals, DECIMALS);
    assert!(o.transfer.signer_seeds.is_none());
    assert_eq!(o.state.status, EscrowStatus::Funded);
    assert_eq!(o.state.amount, AMOUNT);
    assert_eq!(o.receipt.status, EscrowStatus::Funded);
}

#[test]
fn release_end_to_end() {
    let d = deal();
    let init = initialize(&d.initialize_accounts(), DEAL_ID, AMOUNT, &ids()).unwrap();
    assert_eq!(init.state.status, EscrowStatus::Created);
    let dep = deposit(&d.deposit_accounts(init.state.status, SUPPLY, 0), &ids()).unwrap();
    assert_eq!(dep.state.status, EscrowStatus::Funded);
    let o = release(&d.release_accounts(dep.state.status, AMOUNT), &ids()).unwrap();
    let paid = o.to_receiver.unwrap();
    assert_eq!(paid.from.bytes, d.vault.to_bytes());
    assert_eq!(paid.to.bytes, d.destination.to_bytes());
    assert_eq!(paid.authority.bytes, d.state.to_bytes());
    assert_eq!(paid.amount, AMOUNT);
    assert_eq!(paid.decimals, DECIMALS);
    assert_eq!(paid.signer_seeds.unwrap(), escrow_signer_seeds(&d));
    assert!(o.surplus_to_sender.is_none());
    assert_eq!(o.close.account.bytes, d.vault.to_bytes());
    assert_eq!(o.close.destination.bytes, d.sender.to_bytes());
    assert_eq!(o.close.authority.bytes, d.state.to_bytes());
    assert_eq!(o.close.signer_seeds, escrow_signer_seeds(&d));
    assert_eq!(o.state.status, EscrowStatus::Released);
    assert_eq!(o.receipt.status, EscrowStatus::Released);
    assert_eq!(o.state_rent_to.bytes, d.sender.to_bytes());
}

#[test]
fn cancel_end_to_end() {
    let d = deal();
    let o = cancel(&d.cancel_accounts(EscrowStatus::Funded, AMOUNT), &ids()).unwrap();
    let refund = o.refund.unwrap();
    assert_eq!(refund.from.bytes, d.vault.to_bytes());
    assert_eq!(refund.to.bytes, d.source.to_bytes());
    assert_eq!(refund.amount, AMOUNT);
    assert_eq!(o.close.destination.bytes, d.sender.to_bytes());
    assert_eq!(o.state.status, EscrowStatus::Cancelled);
    assert_eq!(o.receipt.status, EscrowStatus::Cancelled);
    assert_eq!(o.state_rent_to.bytes, d.sender.to_bytes());
}

#[test]
fn cancels_created_deal_without_deposit() {
    let d = deal();
    let o = cancel(&d.cancel_accounts(EscrowStatus::Created, 0), &ids()).unwrap();
    assert!(o.refund.is_none());
    assert_eq!(o.close.account.bytes, d.vault.to_bytes());
    assert_eq!(o.state.status, EscrowStatus::Cancelled);
    assert_eq!(o.receipt.status, EscrowStatus::Cancelled);
}

#[test]
fn rejects_zero_amount() {
    let d = deal();
    let r = initialize(&d.initialize_accounts(), DEAL_ID, 0, &ids());
    assert_eq!(r.unwrap_err(), escrow_err(EscrowError::AmountMustBePositive));
}

#[test]
fn rejects_sender_as_receiver() {
    let d = deal();
    let mut a = d.initialize_accounts();
    a.receiver.key = addr(&d.sender);
    let r = initialize(&a, DEAL_ID, AMOUNT, &ids());
    assert_eq!(r.unwrap_err(), escrow_err(EscrowError::SenderEqualsReceiver));
}

#[test]
fn rejects_missing_signatures_in_every_instruction() {
    let d = deal();
    let ids = ids();
    let mut i = d.initialize_accounts();
    i.sender.is_signer = false;
    assert_eq!(initialize(&i, DEAL_ID, AMOUNT, &ids).unwrap_err(), framework_err(FrameworkError::AccountNotSigner));
    let mut dp = d.deposit_accounts(EscrowStatus::Created, SUPPLY, 0);
    dp.sender.is_signer = false;
    assert_eq!(deposit(&dp, &ids).unwrap_err(), framework_err(FrameworkError::AccountNotSigner));
    let mut r = d.release_accounts(EscrowStatus::Funded, AMOUNT);
    r.sender.is_signer = false;
    assert_eq!(release(&r, &ids).unwrap_err(), framework_err(FrameworkError::AccountNotSigner));
    let mut c = d.cancel_accounts(EscrowStatus::Funded, AMOUNT);
    c.sender.is_signer = false;
    assert_eq!(cancel(&c, &ids).unwrap_err(), framework_err(FrameworkError::AccountNotSigner));
}

#[test]
fn rejects_wrong_sender_in_deposit_release_and_cancel() {
    let d = deal();
    let ids = ids();
    let stranger = addr(&d.receiver);
    let mut dp = d.deposit_accounts(EscrowStatus::Created, SUPPLY, 0);
    dp.sender.key = stranger;
    assert_eq!(deposit(&dp, &ids).unwrap_err(), escrow_err(EscrowError::UnauthorizedSender));
    let mut r = d.release_accounts(EscrowStatus::Funded, AMOUNT);
    r.sender.key = stranger;
    assert_eq!(release(&r, &ids).unwrap_err(), escrow_err(EscrowError::UnauthorizedSender));
    let mut c = d.cancel_accounts(EscrowStatus::Funded, AMOUNT);
    c.sender.key = stranger;
    assert_eq!(cancel(&c, &ids).unwrap_err(), escrow_err(EscrowError::UnauthorizedSender));
}

#[test]
fn rejects_mint_substitution_in_every_transition() {
    let d = deal();
    let ids = ids();
    let other = addr(&wallet(9));
    let mut dp = d.deposit_accounts(EscrowStatus::Created, SUPPLY, 0);
    dp.mint.header.key = other;
    assert_eq!(deposit(&dp, &ids).unwrap_err(), escrow_err(EscrowError::InvalidMint));
    let mut r = d.release_accounts(EscrowStatus::Funded, AMOUNT);
    r.mint.header.key = other;
    assert_eq!(release(&r, &ids).unwrap_err(), escrow_err(EscrowError::InvalidMint));
    let mut c = d.cancel_accounts(EscrowStatus::Funded, AMOUNT);
    c.mint.header.key = other;
    assert_eq!(cancel(&c, &ids).unwrap_err(), escrow_err(EscrowError::InvalidMint));
}

#[test]
fn rejects_receiver_substitution() {
    let d = deal();
    let other = wallet(8);
    let other_ata = anchor_spl::associated_token::get_associated_token_address_with_program_id(&other, &d.mint, &anchor_spl::token_2022::ID);
    let mut r = d.release_accounts(EscrowStatus::Funded, AMOUNT);
    r.receiver.key = addr(&other);
    r.receiver_account = d.token_account(&other_ata, &other, 0);
    assert_eq!(release(&r, &ids()).unwrap_err(), escrow_err(EscrowError::InvalidReceiver));
}

#[test]
fn rejects_source_with_wrong_owner() {
    let d = deal();
    let mut dp = d.deposit_accounts(EscrowStatus::Created, SUPPLY, 0);
    dp.source = d.token_account(&d.destination, &d.receiver, SUPPLY);
    assert_eq!(deposit(&dp, &ids()).unwrap_err(), framework_err(FrameworkError::ConstraintTokenOwner));
}

#[test]
fn rejects_source_with_wrong_mint() {
    let d = deal();
    let mut dp = d.deposit_accounts(EscrowStatus::Created, SUPPLY, 0);
    if let Ok(data) = dp.source.data.as_mut() {
        data.mint = addr(&wallet(9));
    }
    assert_eq!(deposit(&dp, &ids()).unwrap_err(), framework_err(FrameworkError::ConstraintTokenMint));
}

#[test]
fn rejects_non_ata_receiver_account() {
    let d = deal();
    let mut r = d.release_accounts(EscrowStatus::Funded, AMOUNT);
    r.receiver_account = d.token_account(&wallet(10), &d.receiver, 0);
    assert_eq!(release(&r, &ids()).unwrap_err(), framework_err(FrameworkError::ConstraintAssociated));
}

#[test]
fn rejects_non_ata_refund_account() {
    let d = deal();
    let non_ata = wallet(11);
    let mut c = d.cancel_accounts(EscrowStatus::Funded, AMOUNT);
    c.sender_account = d.token_account(&non_ata, &d.sender, 0);
    assert_eq!(cancel(&c, &ids()).unwrap_err(), framework_err(FrameworkError::ConstraintAssociated));
    let mut r = d.release_accounts(EscrowStatus::Funded, AMOUNT);
    r.sender_account = d.token_account(&non_ata, &d.sender, 0);
    assert_eq!(release(&r, &ids()).unwrap_err(), framework_err(FrameworkError::ConstraintAssociated));
}

#[test]
fn rejects_deposit_twice() {
    let d = deal();
    let dp = d.deposit_accounts(EscrowStatus::Funded, SUPPLY - AMOUNT, AMOUNT);
    assert_eq!(deposit(&dp, &ids()).unwrap_err(), escrow_err(EscrowError::InvalidStatus));
}

#[test]
fn rejects_release_before_funding() {
    let d = deal();
    let r = d.release_accounts(EscrowStatus::Created, 0);
    assert_eq!(release(&r, &ids()).unwrap_err(), escrow_err(EscrowError::InvalidStatus));
}

#[test]
fn rejects_every_operation_after_release_or_cancel() {
    let d = deal();
    let ids = ids();
    let closed = AccountHeader {
        key: addr(&d.state),
        owner: addr(&anchor_lang::system_program::ID),
        lamports: 0,
        is_signer: false,
        is_writable: true,
        executable: false,
        data_len: 0,
    };
    for status in [EscrowStatus::Released, EscrowStatus::Cancelled] {
        let mut dp = d.deposit_accounts(status, SUPPLY, 0);
        dp.escrow = Loaded { header: closed, data: Err(DecodeError::DiscriminatorNotFound) };
        assert_eq!(deposit(&dp, &ids).unwrap_err(), framework_err(FrameworkError::AccountNotInitialized));
        let mut r = d.release_accounts(status, 0);
        r.escrow = Loaded { header: closed, data: Err(DecodeError::DiscriminatorNotFound) };
        assert_eq!(release(&r, &ids).unwrap_err(), framework_err(FrameworkError::AccountNotInitialized));
        let mut c = d.cancel_accounts(status, 0);
        c.escrow = Loaded { header: closed, data: Err(DecodeError::DiscriminatorNotFound) };
        assert_eq!(cancel(&c, &ids).unwrap_err(), framework_err(FrameworkError::AccountNotInitialized));
    }
}

#[test]
fn rejects_terminal_status_even_with_live_state() {
    let d = deal();
    let ids = ids();
    for status in [EscrowStatus::Released, EscrowStatus::Cancelled] {
        assert_eq!(deposit(&d.deposit_accounts(status, SUPPLY, 0), &ids).unwrap_err(), escrow_err(EscrowError::InvalidStatus));
        assert_eq!(release(&d.release_accounts(status, AMOUNT), &ids).unwrap_err(), escrow_err(EscrowError::InvalidStatus));
        assert_eq!(cancel(&d.cancel_accounts(status, AMOUNT), &ids).unwrap_err(), escrow_err(EscrowError::InvalidStatus));
    }
}

#[test]
fn rejects_vault_of_another_deal() {
    let d = deal();
    let other = Deal::new(d.sender, DEAL_ID + 1);
    let mut r = d.release_accounts(EscrowStatus::Funded, AMOUNT);
    r.vault = other.token_account(&other.vault, &other.state, AMOUNT);
    assert_eq!(release(&r, &ids()).unwrap_err(), framework_err(FrameworkError::ConstraintSeeds));
    let mut c = d.cancel_accounts(EscrowStatus::Funded, AMOUNT);
    c.vault = other.token_account(&other.vault, &other.state, AMOUNT);
    assert_eq!(cancel(&c, &ids()).unwrap_err(), framework_err(FrameworkError::ConstraintSeeds));
}

#[test]
fn rejects_wrong_receipt_pda() {
    let d = deal();
    let other = Deal::new(d.sender, DEAL_ID + 1);
    let mut r = d.release_accounts(EscrowStatus::Funded, AMOUNT);
    r.receipt = other.receipt_account(EscrowStatus::Funded);
    assert_eq!(release(&r, &ids()).unwrap_err(), framework_err(FrameworkError::ConstraintSeeds));
}

#[test]
fn rejects_wrong_initialize_seeds() {
    let d = deal();
    let other = Deal::new(d.sender, DEAL_ID + 1);
    let ids = ids();
    let mut a = d.initialize_accounts();
    a.escrow.key = addr(&other.state);
    assert_eq!(initialize(&a, DEAL_ID, AMOUNT, &ids).unwrap_err(), framework_err(FrameworkError::ConstraintSeeds));
    let mut a = d.initialize_accounts();
    a.receipt.key = addr(&other.receipt);
    assert_eq!(initialize(&a, DEAL_ID, AMOUNT, &ids).unwrap_err(), framework_err(FrameworkError::ConstraintSeeds));
    let mut a = d.initialize_accounts();
    a.vault.key = addr(&other.vault);
    assert_eq!(initialize(&a, DEAL_ID, AMOUNT, &ids).unwrap_err(), framework_err(FrameworkError::ConstraintSeeds));
}

#[test]
fn rejects_corrupted_stored_bump() {
    let d = deal();
    let mut r = d.release_accounts(EscrowStatus::Funded, AMOUNT);
    if let Ok(s) = r.escrow.data.as_mut() {
        s.bump = s.bump.wrapping_sub(1);
    }
    assert_eq!(release(&r, &ids()).unwrap_err(), framework_err(FrameworkError::ConstraintSeeds));
}

#[test]
fn rejects_wrong_token_program() {
    let d = deal();
    let ids = ids();
    let legacy = program(&anchor_spl::token::ID);
    let mut r = d.release_accounts(EscrowStatus::Funded, AMOUNT);
    r.token_program = legacy;
    assert_eq!(release(&r, &ids).unwrap_err(), framework_err(FrameworkError::ConstraintMintTokenProgram));
    let mut c = d.cancel_accounts(EscrowStatus::Funded, AMOUNT);
    c.token_program = legacy;
    assert_eq!(cancel(&c, &ids).unwrap_err(), framework_err(FrameworkError::ConstraintMintTokenProgram));
    let mut dp = d.deposit_accounts(EscrowStatus::Created, SUPPLY, 0);
    dp.token_program = legacy;
    assert_eq!(deposit(&dp, &ids).unwrap_err(), framework_err(FrameworkError::ConstraintMintTokenProgram));
}

#[test]
fn rejects_legacy_token_mint_at_initialize() {
    let d = deal();
    let mut a = d.initialize_accounts();
    a.mint.header.owner = addr(&anchor_spl::token::ID);
    a.token_program = program(&anchor_spl::token::ID);
    assert_eq!(initialize(&a, DEAL_ID, AMOUNT, &ids()).unwrap_err(), escrow_err(EscrowError::InvalidTokenProgram));
}

#[test]
fn rejects_arbitrary_program_instead_of_token_program() {
    let d = deal();
    let mut r = d.release_accounts(EscrowStatus::Funded, AMOUNT);
    r.token_program = program(&anchor_lang::system_program::ID);
    assert_eq!(release(&r, &ids()).unwrap_err(), framework_err(FrameworkError::InvalidProgramId));
}

#[test]
fn rejects_wrong_vault_token_authority() {
    let d = deal();
    let mut r = d.release_accounts(EscrowStatus::Funded, AMOUNT);
    if let Ok(v) = r.vault.data.as_mut() {
        v.owner = addr(&d.sender);
    }
    assert_eq!(release(&r, &ids()).unwrap_err(), framework_err(FrameworkError::ConstraintTokenOwner));
}

#[test]
fn rejects_wrong_vault_program_owner() {
    let d = deal();
    let mut r = d.release_accounts(EscrowStatus::Funded, AMOUNT);
    r.vault.header.owner = addr(&anchor_spl::token::ID);
    assert_eq!(release(&r, &ids()).unwrap_err(), framework_err(FrameworkError::ConstraintTokenTokenProgram));
}

#[test]
fn rejects_freezable_mint() {
    let d = deal();
    let mut a = d.initialize_accounts();
    a.mint.data = Ok(MintData { freeze_authority: Some(addr(&wallet(5))), decimals: DECIMALS });
    assert_eq!(initialize(&a, DEAL_ID, AMOUNT, &ids()).unwrap_err(), escrow_err(EscrowError::UnsupportedMint));
}

#[test]
fn rejects_mint_extensions() {
    let d = deal();
    let mut a = d.initialize_accounts();
    a.mint_data = mint_bytes_with(&d.sender, ExtensionType::MintCloseAuthority);
    a.mint.header.data_len = a.mint_data.len() as u64;
    assert_eq!(initialize(&a, DEAL_ID, AMOUNT, &ids()).unwrap_err(), escrow_err(EscrowError::UnsupportedMint));
}

#[test]
fn unsolicited_tokens_do_not_block_release_or_cancel() {
    let d = deal();
    let donation = 13;
    let o = release(&d.release_accounts(EscrowStatus::Funded, AMOUNT + donation), &ids()).unwrap();
    assert_eq!(o.to_receiver.unwrap().amount, AMOUNT);
    let surplus = o.surplus_to_sender.unwrap();
    assert_eq!(surplus.amount, donation);
    assert_eq!(surplus.to.bytes, d.source.to_bytes());
    assert_eq!(o.state.status, EscrowStatus::Released);
    let o = cancel(&d.cancel_accounts(EscrowStatus::Funded, AMOUNT + donation), &ids()).unwrap();
    assert_eq!(o.refund.unwrap().amount, AMOUNT + donation);
    assert_eq!(o.state.status, EscrowStatus::Cancelled);
}

#[test]
fn direct_transfer_does_not_fund_created_deal_and_can_be_refunded() {
    let d = deal();
    let r = release(&d.release_accounts(EscrowStatus::Created, AMOUNT), &ids());
    assert_eq!(r.unwrap_err(), escrow_err(EscrowError::InvalidStatus));
    let o = cancel(&d.cancel_accounts(EscrowStatus::Created, AMOUNT), &ids()).unwrap();
    assert_eq!(o.refund.unwrap().amount, AMOUNT);
    assert_eq!(o.state.status, EscrowStatus::Cancelled);
}

#[test]
fn rejects_funded_vault_shortfall() {
    let d = deal();
    let r = release(&d.release_accounts(EscrowStatus::Funded, AMOUNT - 1), &ids());
    assert_eq!(r.unwrap_err(), escrow_err(EscrowError::InvalidVaultBalance));
    let c = cancel(&d.cancel_accounts(EscrowStatus::Funded, AMOUNT - 1), &ids());
    assert_eq!(c.unwrap_err(), escrow_err(EscrowError::InvalidVaultBalance));
}

#[test]
fn same_deal_id_is_independent_for_different_senders() {
    let first = deal();
    let second = Deal::new(wallet(4), DEAL_ID);
    assert_ne!(first.state, second.state);
    assert_ne!(first.vault, second.vault);
    assert_ne!(first.receipt, second.receipt);
    let o = initialize(&second.initialize_accounts(), DEAL_ID, AMOUNT, &ids()).unwrap();
    assert_eq!(o.state.sender.bytes, second.sender.to_bytes());
    assert_eq!(o.state.status, EscrowStatus::Created);
}

#[test]
fn rejects_repeated_deal_id_while_active_and_after_both_terminal_states() {
    let d = deal();
    let first = initialize(&d.initialize_accounts(), DEAL_ID, AMOUNT, &ids()).unwrap();
    // The receipt outlives the deal: release and cancel close only the state
    // and the vault, and record the final status in the receipt.
    let released = release(&d.release_accounts(EscrowStatus::Funded, AMOUNT), &ids()).unwrap();
    assert_eq!(released.receipt.status, EscrowStatus::Released);
    assert_eq!(released.state_rent_to.bytes, d.sender.to_bytes());
    let cancelled = cancel(&d.cancel_accounts(EscrowStatus::Funded, AMOUNT), &ids()).unwrap();
    assert_eq!(cancelled.receipt.status, EscrowStatus::Cancelled);
    // A second initialize with the same id must create the same receipt
    // account again. The receipt still exists, owned by the program and
    // holding its rent, so the library asks for a creation over a funded
    // account, which the System program refuses for an account it does not
    // own.
    let mut reused = d.initialize_accounts();
    reused.receipt = header(&d.receipt, &program_id());
    reused.receipt.data_len = 9;
    let again = initialize(&reused, DEAL_ID, AMOUNT + 5, &ids()).unwrap();
    assert!(!first.receipt_account.prefunded);
    assert!(again.receipt_account.prefunded);
    assert_eq!(first.receipt_account.address.bytes, again.receipt_account.address.bytes);
    assert_eq!(first.receipt_account.signer_seeds, again.receipt_account.signer_seeds);
    assert_eq!(first.state_account.signer_seeds, again.state_account.signer_seeds);
    let mut moved = d.initialize_accounts();
    moved.receipt.key = addr(&wallet(12));
    assert_eq!(initialize(&moved, DEAL_ID, AMOUNT, &ids()).unwrap_err(), framework_err(FrameworkError::ConstraintSeeds));
}

#[test]
fn rejects_insufficient_balance() {
    let d = deal();
    let o = initialize(&d.initialize_accounts(), DEAL_ID, SUPPLY + 1, &ids()).unwrap();
    assert_eq!(o.state.amount, SUPPLY + 1);
    let mut dp = d.deposit_accounts(EscrowStatus::Created, SUPPLY, 0);
    if let Ok(s) = dp.escrow.data.as_mut() {
        s.amount = SUPPLY + 1;
    }
    // The deposit asks the token program for more than the source holds; the
    // token program refuses the transfer.
    let o = deposit(&dp, &ids()).unwrap();
    assert_eq!(o.transfer.amount, SUPPLY + 1);
    assert!(o.transfer.amount > dp.source.data.unwrap().amount);
}

#[test]
fn rolls_back_successful_release_when_next_instruction_fails() {
    let d = deal();
    let o = release(&d.release_accounts(EscrowStatus::Funded, AMOUNT), &ids()).unwrap();
    assert_eq!(o.state_rent_to.bytes, d.sender.to_bytes());
    // A cancel after the release finds the state account closed.
    let closed = AccountHeader {
        key: addr(&d.state),
        owner: addr(&anchor_lang::system_program::ID),
        lamports: 0,
        is_signer: false,
        is_writable: true,
        executable: false,
        data_len: 0,
    };
    let mut c = d.cancel_accounts(EscrowStatus::Released, 0);
    c.escrow = Loaded { header: closed, data: Err(DecodeError::DiscriminatorNotFound) };
    assert_eq!(cancel(&c, &ids()).unwrap_err(), framework_err(FrameworkError::AccountNotInitialized));
}

#[test]
fn independent_deals_do_not_share_balances() {
    let first = deal();
    let second = Deal::new(first.sender, DEAL_ID + 1);
    assert_ne!(first.vault, second.vault);
    let dep = deposit(&second.deposit_accounts(EscrowStatus::Created, SUPPLY - AMOUNT, 0), &ids()).unwrap();
    assert_eq!(dep.transfer.to.bytes, second.vault.to_bytes());
    let c = cancel(&second.cancel_accounts(EscrowStatus::Funded, AMOUNT), &ids()).unwrap();
    assert_eq!(c.refund.unwrap().from.bytes, second.vault.to_bytes());
    assert_eq!(c.close.account.bytes, second.vault.to_bytes());
    let r = release(&first.release_accounts(EscrowStatus::Funded, AMOUNT), &ids()).unwrap();
    let paid = r.to_receiver.unwrap();
    assert_eq!(paid.from.bytes, first.vault.to_bytes());
    assert_eq!(paid.to.bytes, first.destination.to_bytes());
    assert_eq!(paid.amount, AMOUNT);
}

#[test]
fn rolls_back_receiver_transfer_when_refund_cpi_fails() {
    let d = deal();
    // One unsolicited token in the vault: the release asks for the payment to
    // the receiver and then for the refund of the surplus; should the token
    // program refuse the second, the whole instruction fails.
    let o = release(&d.release_accounts(EscrowStatus::Funded, AMOUNT + 1), &ids()).unwrap();
    assert_eq!(o.to_receiver.unwrap().amount, AMOUNT);
    let surplus = o.surplus_to_sender.unwrap();
    assert_eq!(surplus.amount, 1);
    assert_eq!(surplus.to.bytes, d.source.to_bytes());
}

#[test]
fn rejects_uninitialized_and_foreign_state_accounts() {
    let d = deal();
    let ids = ids();
    let mut dp = d.deposit_accounts(EscrowStatus::Created, SUPPLY, 0);
    dp.escrow.header.owner = addr(&anchor_spl::token_2022::ID);
    assert_eq!(deposit(&dp, &ids).unwrap_err(), framework_err(FrameworkError::AccountOwnedByWrongProgram));
    let mut dp = d.deposit_accounts(EscrowStatus::Created, SUPPLY, 0);
    dp.receipt.data = Err(DecodeError::DidNotDeserialize);
    assert_eq!(deposit(&dp, &ids).unwrap_err(), framework_err(FrameworkError::AccountDidNotDeserialize));
    let mut dp = d.deposit_accounts(EscrowStatus::Created, SUPPLY, 0);
    dp.escrow.data = Err(DecodeError::DiscriminatorMismatch);
    assert_eq!(deposit(&dp, &ids).unwrap_err(), framework_err(FrameworkError::AccountDiscriminatorMismatch));
    let mut dp = d.deposit_accounts(EscrowStatus::Created, SUPPLY, 0);
    dp.receipt.data = Err(DecodeError::DiscriminatorNotFound);
    assert_eq!(deposit(&dp, &ids).unwrap_err(), framework_err(FrameworkError::AccountDiscriminatorNotFound));
    let mut dp = d.deposit_accounts(EscrowStatus::Created, SUPPLY, 0);
    dp.mint.data = Err(DecodeError::InvalidAccountData);
    assert_eq!(deposit(&dp, &ids).unwrap_err(), ProgramError::Builtin(BuiltinError::InvalidAccountData));
    let mut dp = d.deposit_accounts(EscrowStatus::Created, SUPPLY, 0);
    dp.vault.data = Err(DecodeError::UninitializedAccount);
    assert_eq!(deposit(&dp, &ids).unwrap_err(), ProgramError::Builtin(BuiltinError::UninitializedAccount));
    let mut r = d.release_accounts(EscrowStatus::Funded, AMOUNT);
    r.receiver.owner = addr(&anchor_spl::token_2022::ID);
    assert_eq!(release(&r, &ids).unwrap_err(), framework_err(FrameworkError::AccountNotSystemOwned));
    let mut r = d.release_accounts(EscrowStatus::Funded, AMOUNT);
    r.token_program.executable = false;
    assert_eq!(release(&r, &ids).unwrap_err(), framework_err(FrameworkError::InvalidProgramExecutable));
    let mut r = d.release_accounts(EscrowStatus::Funded, AMOUNT);
    r.escrow.header.is_writable = false;
    assert_eq!(release(&r, &ids).unwrap_err(), framework_err(FrameworkError::ConstraintMut));
    let mut r = d.release_accounts(EscrowStatus::Funded, AMOUNT);
    r.receiver_account.header.owner = addr(&anchor_spl::token::ID);
    assert_eq!(release(&r, &ids).unwrap_err(), framework_err(FrameworkError::ConstraintAssociatedTokenTokenProgram));
}

#[test]
fn rejects_mismatched_receipt_status() {
    let d = deal();
    let mut r = d.release_accounts(EscrowStatus::Funded, AMOUNT);
    r.receipt = d.receipt_account(EscrowStatus::Created);
    assert_eq!(release(&r, &ids()).unwrap_err(), escrow_err(EscrowError::InvalidStatus));
}

#[test]
fn error_codes_follow_the_declaration() {
    assert_eq!(EscrowError::AmountMustBePositive.code(), 6000);
    assert_eq!(EscrowError::InvalidStatus.code(), 6006);
    assert_eq!(EscrowError::InvalidVaultBalance.code(), 6008);
    assert_eq!(FrameworkError::ConstraintSeeds.code(), 2006);
    assert_eq!(FrameworkError::AccountNotInitialized.code(), 3012);
    assert_eq!(ProgramError::Escrow(EscrowError::UnsupportedMint).code(), 6007);
    assert_eq!(ProgramError::Framework(FrameworkError::AccountNotSigner).code(), 3010);
    assert_eq!(FrameworkError::AccountDiscriminatorNotFound.code(), 3001);
    assert_eq!(FrameworkError::AccountDiscriminatorMismatch.code(), 3002);
    assert_eq!(
        ProgramError::Builtin(BuiltinError::InvalidAccountData).code(),
        u64::from(anchor_lang::prelude::ProgramError::InvalidAccountData)
    );
    assert_eq!(
        ProgramError::Builtin(BuiltinError::UninitializedAccount).code(),
        u64::from(anchor_lang::prelude::ProgramError::UninitializedAccount)
    );
}

#[test]
fn new_accounts_have_their_types_lengths() {
    assert_eq!(account_space(NewAccount::Receipt), 9);
    assert_eq!(account_space(NewAccount::State), 122);
    assert_eq!(
        account_space(NewAccount::Vault) as usize,
        <anchor_spl::token_2022::spl_token_2022::state::Account as anchor_lang::solana_program::program_pack::Pack>::LEN
    );
    // The vault of a mint with extensions gets room for the account
    // extensions that the mint's extensions call for.
    let d = deal();
    let mut a = d.initialize_accounts();
    a.mint_data = mint_bytes_with(&d.sender, ExtensionType::NonTransferable);
    a.mint.header.data_len = a.mint_data.len() as u64;
    let stage = InitializeStage::Vault { escrow_bump: d.bump };
    let expected = ExtensionType::try_calculate_account_len::<TokenAccountState>(&[
        ExtensionType::NonTransferableAccount,
        ExtensionType::ImmutableOwner,
    ])
    .unwrap();
    assert!(expected > 165);
    match initialize_step(&a, DEAL_ID, AMOUNT, &ids(), stage).unwrap() {
        InitializeAction::Create(c, _) => assert_eq!(c.space as usize, expected),
        InitializeAction::Complete(_) => panic!("the vault stage creates the vault"),
    }
    // A mint extension that asks nothing of token accounts leaves a plain one.
    a.mint_data = mint_bytes_with(&d.sender, ExtensionType::MintCloseAuthority);
    match initialize_step(&a, DEAL_ID, AMOUNT, &ids(), stage).unwrap() {
        InitializeAction::Create(c, _) => assert_eq!(c.space, 165),
        InitializeAction::Complete(_) => panic!("the vault stage creates the vault"),
    }
    // Extension data that the token program cannot read stops the vault's
    // creation with the token program's error.
    let mut broken = mint_bytes_with(&d.sender, ExtensionType::NonTransferable);
    let n = broken.len();
    broken[n - 4] = 0xff;
    broken[n - 3] = 0xff;
    a.mint_data = broken;
    assert_eq!(
        initialize_step(&a, DEAL_ID, AMOUNT, &ids(), stage).unwrap_err(),
        ProgramError::Builtin(BuiltinError::InvalidAccountData)
    );
    // A mint of the original token program gets a plain token account.
    a.mint.header.owner = addr(&anchor_spl::token::ID);
    match initialize_step(&a, DEAL_ID, AMOUNT, &ids(), stage).unwrap() {
        InitializeAction::Create(c, _) => assert_eq!(c.space, 165),
        InitializeAction::Complete(_) => panic!("the vault stage creates the vault"),
    }
}

#[test]
fn rejects_duplicate_writable_accounts() {
    let d = deal();
    let mut dp = d.deposit_accounts(EscrowStatus::Created, SUPPLY, 0);
    dp.source = d.token_account(&d.vault, &d.sender, SUPPLY);
    assert_eq!(deposit(&dp, &ids()).unwrap_err(), framework_err(FrameworkError::ConstraintDuplicateMutableAccount));
    let mut c = d.cancel_accounts(EscrowStatus::Funded, AMOUNT);
    c.sender_account = d.token_account(&d.vault, &d.sender, AMOUNT);
    assert_eq!(cancel(&c, &ids()).unwrap_err(), framework_err(FrameworkError::ConstraintDuplicateMutableAccount));
    let mut r = d.release_accounts(EscrowStatus::Funded, AMOUNT);
    r.receiver_account = d.token_account(&d.source, &d.sender, 0);
    assert_eq!(release(&r, &ids()).unwrap_err(), framework_err(FrameworkError::ConstraintDuplicateMutableAccount));
}

#[test]
fn initialize_checks_the_new_accounts_first() {
    let d = deal();
    let other = Deal::new(d.sender, DEAL_ID + 1);
    let mut a = d.initialize_accounts();
    a.receiver.key = addr(&d.sender);
    a.vault.key = addr(&other.vault);
    assert_eq!(initialize(&a, DEAL_ID, 0, &ids()).unwrap_err(), framework_err(FrameworkError::ConstraintSeeds));
    a.vault.key = addr(&d.vault);
    assert_eq!(initialize(&a, DEAL_ID, 0, &ids()).unwrap_err(), escrow_err(EscrowError::SenderEqualsReceiver));
    a.receiver.key = addr(&d.receiver);
    assert_eq!(initialize(&a, DEAL_ID, 0, &ids()).unwrap_err(), escrow_err(EscrowError::AmountMustBePositive));
}

#[test]
fn error_messages_match_the_declaration() {
    assert_eq!(EscrowError::AmountMustBePositive.message(), "Amount must be greater than zero");
    assert_eq!(EscrowError::InvalidVaultBalance.message(), "Vault balance is smaller than the funded amount");
    assert_eq!(FrameworkError::ConstraintDuplicateMutableAccount.code(), 2040);
}

#[test]
fn initialize_runs_in_stages() {
    let d = deal();
    let a = d.initialize_accounts();
    let ids = ids();
    let (receipt, next) = match initialize_step(&a, DEAL_ID, AMOUNT, &ids, InitializeStage::Receipt).unwrap() {
        InitializeAction::Create(c, next) => (c, next),
        InitializeAction::Complete(_) => panic!("the receipt comes first"),
    };
    assert_eq!(receipt.kind, NewAccount::Receipt);
    assert_eq!(receipt.space, 9);
    assert_eq!(next, InitializeStage::State);
    let next = match initialize_step(&a, DEAL_ID, AMOUNT, &ids, next).unwrap() {
        InitializeAction::Create(c, next) => {
            assert_eq!(c.kind, NewAccount::State);
            assert_eq!(c.space, 8 + 114);
            next
        }
        InitializeAction::Complete(_) => panic!("the state comes second"),
    };
    assert_eq!(next, InitializeStage::Vault { escrow_bump: d.bump });
    let next = match initialize_step(&a, DEAL_ID, AMOUNT, &ids, next).unwrap() {
        InitializeAction::Create(c, next) => {
            assert_eq!(c.kind, NewAccount::Vault);
            assert_eq!(c.space, 165);
            next
        }
        InitializeAction::Complete(_) => panic!("the vault comes third"),
    };
    assert_eq!(next, InitializeStage::Finish { escrow_bump: d.bump });
    match initialize_step(&a, DEAL_ID, AMOUNT, &ids, next).unwrap() {
        InitializeAction::Complete(deal) => {
            assert_eq!(deal.state.bump, d.bump);
            assert_eq!(deal.state.amount, AMOUNT);
            assert_eq!(deal.receipt.status, EscrowStatus::Created);
        }
        InitializeAction::Create(..) => panic!("nothing is left to create"),
    }
    // The remaining checks and the amount come after the creations.
    assert_eq!(
        initialize_step(&a, DEAL_ID, 0, &ids, InitializeStage::Receipt).is_ok(),
        true
    );
    assert_eq!(
        initialize_step(&a, DEAL_ID, 0, &ids, next).unwrap_err(),
        escrow_err(EscrowError::AmountMustBePositive)
    );
}

#[test]
fn prefunded_accounts_are_topped_up() {
    let d = deal();
    let mut a = d.initialize_accounts();
    a.escrow.lamports = 5;
    a.receipt.lamports = 0;
    let o = initialize(&a, DEAL_ID, AMOUNT, &ids()).unwrap();
    assert!(o.state_account.prefunded);
    assert!(!o.receipt_account.prefunded);
}

#[test]
fn instructions_with_usable_seeds_run_to_an_end() {
    let d = deal();
    let ids = ids();
    let init = d.initialize_accounts();
    assert!(!initialize_aborts(&init, DEAL_ID, &ids));
    assert!(!initialize_stage_aborts(&init, DEAL_ID, &ids, InitializeStage::Vault { escrow_bump: d.bump }));
    let o = try_initialize(&init, DEAL_ID, AMOUNT, &ids).unwrap().unwrap();
    assert_eq!(o.state.bump, d.bump);
    assert_eq!(try_initialize(&init, DEAL_ID, 0, &ids).unwrap().unwrap_err(), escrow_err(EscrowError::AmountMustBePositive));
    match try_initialize_step(&init, DEAL_ID, AMOUNT, &ids, InitializeStage::Receipt).unwrap().unwrap() {
        InitializeAction::Create(c, next) => {
            assert_eq!(c.kind, NewAccount::Receipt);
            assert_eq!(next, InitializeStage::State);
        }
        InitializeAction::Complete(_) => panic!("the receipt comes first"),
    }
    let dp = d.deposit_accounts(EscrowStatus::Created, SUPPLY, 0);
    assert!(!deposit_aborts(&dp, &ids));
    assert_eq!(try_deposit(&dp, &ids).unwrap().unwrap().transfer.amount, AMOUNT);
    let r = d.release_accounts(EscrowStatus::Funded, AMOUNT + 5);
    assert!(!release_aborts(&r, &ids));
    let o = try_release(&r, &ids).unwrap().unwrap();
    assert_eq!(o.surplus_to_sender.unwrap().amount, 5);
    let c = d.cancel_accounts(EscrowStatus::Created, 0);
    assert!(!cancel_aborts(&c, &ids));
    assert!(try_cancel(&c, &ids).unwrap().is_ok());
    // A rejected instruction is rejected, not aborted.
    let r = d.release_accounts(EscrowStatus::Created, AMOUNT);
    assert_eq!(try_release(&r, &ids).unwrap().unwrap_err(), escrow_err(EscrowError::InvalidStatus));
}
