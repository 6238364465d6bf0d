use vstd::prelude::*;

use crate::accounts::{is_uninitialized, lemma_first_failure_none, outcome, AccountHeader, DecodeError, Loaded, TokenAccountData};
use crate::address::ProgramIds;
use crate::extensions::token_account_space;
use crate::escrow::{
    cancel_result, cancelled_as, deposit_result, deposited_as, initialize_result, initialize_stage_result,
    initialized_as, release_result, released_as, CancelOutcome, DepositOutcome,
    InitializeOutcome, ReleaseOutcome,
};
use crate::instructions::{
    at_associated_address, base_mint_len, cancel_checks, cancel_escrow_checks, deposit_checks,
    deposit_escrow_checks, deposit_source_checks, escrow_at_its_address, escrow_cancellable,
    escrow_mint_is, escrow_receiver_is, escrow_sender_is, escrow_status_is, initialize_checks,
    mint_unfreezable, receipt_agrees, release_checks, release_escrow_checks, token_mint_is,
    token_owner_is, vault_at_its_address, Cancel, Deposit, Initialize, InitializeStage, Release,
    initialize_stage_checks,
};
use crate::pda::{
    canonical_program_address, escrow_seed_list, is_program_address, receipt_seed_list,
    vault_seed_list,
};
use crate::state::{EscrowState, EscrowStatus};

verus! {

// ---------------------------------------------------------------------------
// What acceptance of each instruction's accounts implies.

proof fn lemma_initialize_accepted(a: Initialize, deal_id: u64, ids: ProgramIds)
    requires
        outcome(initialize_checks(a, deal_id, ids)) is Ok,
    ensures
        a.sender.is_signer,
        a.receiver.key@ != a.sender.key@,
        a.mint_data@.len() == base_mint_len(),
        mint_unfreezable(a.mint),
        a.token_program.key@ == ids.token_2022@,
        a.mint.header.owner@ == a.token_program.key@,
        token_account_space(a.mint.header.owner@, a.mint_data@, ids.token_2022@) is Ok,
        canonical_program_address(receipt_seed_list(a.sender.key@, deal_id), ids.escrow@) matches Some(p) && p.0 == a.receipt.key@,
        canonical_program_address(escrow_seed_list(a.sender.key@, deal_id), ids.escrow@) matches Some(p) && p.0 == a.escrow.key@,
        canonical_program_address(vault_seed_list(a.escrow.key@), ids.escrow@) matches Some(p) && p.0 == a.vault.key@,
{
    let c = initialize_checks(a, deal_id, ids);
    lemma_first_failure_none(c);
    assert(c[0].holds);
    assert(c[9].holds);
    assert(c[11].holds);
    assert(c[13].holds);
    assert(c[15].holds);
    assert(c[17].holds);
    assert(c[18].holds);
    assert(c[19].holds);
    assert(c[20].holds);
    assert(c[21].holds);
}

proof fn lemma_deposit_accepted(a: Deposit, ids: ProgramIds)
    requires
        outcome(deposit_checks(a, ids)) is Ok,
    ensures
        a.sender.is_signer,
        escrow_at_its_address(a.escrow, ids),
        escrow_sender_is(a.escrow, a.sender.key),
        escrow_mint_is(a.escrow, a.mint.header.key),
        escrow_status_is(a.escrow, EscrowStatus::Created),
        receipt_agrees(a.receipt, a.escrow),
        token_owner_is(a.source, a.sender.key),
        token_mint_is(a.source, a.mint.header.key),
        vault_at_its_address(a.vault.header, a.escrow.header.key, ids),
        token_owner_is(a.vault, a.escrow.header.key),
        token_mint_is(a.vault, a.mint.header.key),
        a.token_program.key@ == ids.token_2022@,
{
    reveal(deposit_escrow_checks);
    reveal(deposit_source_checks);
    let c = deposit_checks(a, ids);
    lemma_first_failure_none(c);
    assert(c[0].holds);
    assert(c[19].holds);
    assert(c[21].holds);
    assert(c[22].holds);
    assert(c[23].holds);
    assert(c[26].holds);
    assert(c[29].holds);
    assert(c[30].holds);
    assert(c[32].holds);
    assert(c[34].holds);
    assert(c[35].holds);
    assert(c[37].holds);
}

#[verifier::rlimit(40)]
proof fn lemma_release_accepted(a: Release, ids: ProgramIds)
    requires
        outcome(release_checks(a, ids)) is Ok,
    ensures
        a.sender.is_signer,
        escrow_at_its_address(a.escrow, ids),
        escrow_sender_is(a.escrow, a.sender.key),
        escrow_receiver_is(a.escrow, a.receiver.key),
        escrow_mint_is(a.escrow, a.mint.header.key),
        escrow_status_is(a.escrow, EscrowStatus::Funded),
        receipt_agrees(a.receipt, a.escrow),
        vault_at_its_address(a.vault.header, a.escrow.header.key, ids),
        token_owner_is(a.vault, a.escrow.header.key),
        token_owner_is(a.receiver_account, a.receiver.key),
        at_associated_address(a.receiver_account.header, a.receiver.key, a.mint.header.key, a.token_program.key, ids),
        token_owner_is(a.sender_account, a.sender.key),
        at_associated_address(a.sender_account.header, a.sender.key, a.mint.header.key, a.token_program.key, ids),
        a.token_program.key@ == ids.token_2022@,
{
    reveal(release_escrow_checks);
    let c = release_checks(a, ids);
    lemma_first_failure_none(c);
    assert(c[0].holds);
    assert(c[24].holds);
    assert(c[26].holds);
    assert(c[27].holds);
    assert(c[28].holds);
    assert(c[29].holds);
    assert(c[33].holds);
    assert(c[35].holds);
    assert(c[37].holds);
    assert(c[41].holds);
    assert(c[42].holds);
    assert(c[45].holds);
    assert(c[46].holds);
    assert(c[48].holds);
}

proof fn lemma_cancel_accepted(a: Cancel, ids: ProgramIds)
    requires
        outcome(cancel_checks(a, ids)) is Ok,
    ensures
        a.sender.is_signer,
        escrow_at_its_address(a.escrow, ids),
        escrow_sender_is(a.escrow, a.sender.key),
        escrow_mint_is(a.escrow, a.mint.header.key),
        escrow_cancellable(a.escrow),
        receipt_agrees(a.receipt, a.escrow),
        vault_at_its_address(a.vault.header, a.escrow.header.key, ids),
        token_owner_is(a.vault, a.escrow.header.key),
        token_owner_is(a.sender_account, a.sender.key),
        at_associated_address(a.sender_account.header, a.sender.key, a.mint.header.key, a.token_program.key, ids),
        a.token_program.key@ == ids.token_2022@,
{
    reveal(cancel_escrow_checks);
    let c = cancel_checks(a, ids);
    lemma_first_failure_none(c);
    assert(c[0].holds);
    assert(c[20].holds);
    assert(c[22].holds);
    assert(c[23].holds);
    assert(c[24].holds);
    assert(c[28].holds);
    assert(c[30].holds);
    assert(c[32].holds);
    assert(c[36].holds);
    assert(c[37].holds);
    assert(c[39].holds);
}

// ---------------------------------------------------------------------------
// Laws of the escrow.

/// Only the deal's sender, with a signature, can move a deal: every accepted
/// `deposit`, `release` and `cancel` carries the signature of the wallet that
/// the deal names as its sender, and `initialize` carries the new sender's.
pub proof fn law_only_the_signing_sender_acts(
    i: Initialize,
    deal_id: u64,
    amount: u64,
    d: Deposit,
    r: Release,
    c: Cancel,
    ids: ProgramIds,
)
    ensures
        initialize_result(i, deal_id, amount, ids) is Ok ==> i.sender.is_signer,
        deposit_result(d, ids) is Ok ==> d.sender.is_signer && escrow_sender_is(d.escrow, d.sender.key),
        release_result(r, ids) is Ok ==> r.sender.is_signer && escrow_sender_is(r.escrow, r.sender.key),
        cancel_result(c, ids) is Ok ==> c.sender.is_signer && escrow_sender_is(c.escrow, c.sender.key),
{
    if initialize_result(i, deal_id, amount, ids) is Ok {
        lemma_initialize_accepted(i, deal_id, ids);
    }
    if deposit_result(d, ids) is Ok {
        lemma_deposit_accepted(d, ids);
    }
    if release_result(r, ids) is Ok {
        lemma_release_accepted(r, ids);
    }
    if cancel_result(c, ids) is Ok {
        lemma_cancel_accepted(c, ids);
    }
}

/// A new deal is well formed: a positive amount, a receiver other than the
/// sender, a Token-2022 mint without extensions or freeze authority, and the
/// status `Created` in both the deal and its receipt.
pub proof fn law_new_deals_are_well_formed(a: Initialize, deal_id: u64, amount: u64, ids: ProgramIds, o: InitializeOutcome)
    requires
        initialize_result(a, deal_id, amount, ids) is Ok,
        initialized_as(o, a, deal_id, amount, ids),
    ensures
        o.state.amount > 0,
        o.state.sender@ != o.state.receiver@,
        o.state.deal_id == deal_id,
        o.state.status == EscrowStatus::Created,
        o.receipt.status == o.state.status,
        a.token_program.key@ == ids.token_2022@,
        a.mint_data@.len() == base_mint_len(),
        mint_unfreezable(a.mint),
{
    lemma_initialize_accepted(a, deal_id, ids);
}

/// The sender alone pays the rent of the three accounts that a new deal
/// creates, and their lengths are fixed: 9 bytes for the receipt (its
/// discriminator and status), 8 + 114 for the state and 165 for the vault.
pub proof fn law_sender_funds_the_new_accounts(a: Initialize, deal_id: u64, amount: u64, ids: ProgramIds, o: InitializeOutcome)
    requires
        initialize_result(a, deal_id, amount, ids) is Ok,
        initialized_as(o, a, deal_id, amount, ids),
    ensures
        o.receipt_account.payer@ == a.sender.key@,
        o.state_account.payer@ == a.sender.key@,
        o.vault_account.payer@ == a.sender.key@,
        o.receipt_account.space == 9,
        o.state_account.space == 122,
        o.vault_account.space == 165,
{
    lemma_initialize_accepted(a, deal_id, ids);
}

/// The deal that `initialize` stores lies at the address that its stored
/// sender, deal id and bump derive: the seed check of every later
/// instruction accepts it.
pub proof fn law_new_deal_passes_later_seed_checks(a: Initialize, deal_id: u64, amount: u64, ids: ProgramIds, o: InitializeOutcome)
    requires
        initialize_result(a, deal_id, amount, ids) is Ok,
        initialized_as(o, a, deal_id, amount, ids),
    ensures
        is_program_address(a.escrow.key@, escrow_seed_list(o.state.sender@, o.state.deal_id), o.state.bump, ids.escrow@),
{
}

/// A sender's deal id fixes the deal's accounts: two accepted
/// `initialize` calls of one sender with one deal id name the same receipt,
/// state and vault accounts.
pub proof fn law_deal_id_fixes_the_accounts(a1: Initialize, a2: Initialize, deal_id: u64, amount1: u64, amount2: u64, ids: ProgramIds)
    requires
        initialize_result(a1, deal_id, amount1, ids) is Ok,
        initialize_result(a2, deal_id, amount2, ids) is Ok,
        a1.sender.key@ == a2.sender.key@,
    ensures
        a1.receipt.key@ == a2.receipt.key@,
        a1.escrow.key@ == a2.escrow.key@,
        a1.vault.key@ == a2.vault.key@,
{
    lemma_initialize_accepted(a1, deal_id, ids);
    lemma_initialize_accepted(a2, deal_id, ids);
}

/// `deposit` takes a created deal to funded, moves exactly the deal's amount
/// from the sender's account of the deal's mint into the deal's vault, and
/// keeps the receipt in step with the deal.
pub proof fn law_deposit_funds_a_created_deal(a: Deposit, ids: ProgramIds, o: DepositOutcome)
    requires
        deposit_result(a, ids) is Ok,
        deposited_as(o, a),
    ensures
        a.escrow.data matches Ok(s) && s.status == EscrowStatus::Created && o.transfer.amount == s.amount,
        a.receipt.data matches Ok(rd) && rd.status == EscrowStatus::Created,
        o.state.status == EscrowStatus::Funded,
        o.receipt.status == o.state.status,
        o.transfer.from@ == a.source.header.key@ && token_owner_is(a.source, a.sender.key) && token_mint_is(a.source, a.mint.header.key),
        o.transfer.to@ == a.vault.header.key@ && token_owner_is(a.vault, a.escrow.header.key) && vault_at_its_address(a.vault.header, a.escrow.header.key, ids),
{
    lemma_deposit_accepted(a, ids);
}

/// `release` takes a funded deal to released and empties the vault exactly:
/// the receiver's associated account gets the deal's amount, the sender's
/// associated account gets the rest, and together they take the vault's
/// whole balance, so that the vault can be closed.
pub proof fn law_release_pays_out_the_vault(a: Release, ids: ProgramIds, o: ReleaseOutcome)
    requires
        release_result(a, ids) is Ok,
        released_as(o, a),
    ensures
        a.escrow.data matches Ok(s) && s.status == EscrowStatus::Funded,
        a.receipt.data matches Ok(rd) && rd.status == EscrowStatus::Funded,
        o.state.status == EscrowStatus::Released,
        o.receipt.status == o.state.status,
        a.escrow.data matches Ok(s) && a.vault.data matches Ok(v) && paid_out(o.to_receiver) == s.amount && paid_out(o.to_receiver) + paid_out(o.surplus_to_sender) == v.amount,
        o.to_receiver matches Some(t) ==> t.to@ == a.receiver_account.header.key@,
        o.surplus_to_sender matches Some(t) ==> t.to@ == a.sender_account.header.key@,
        escrow_receiver_is(a.escrow, a.receiver.key) && token_owner_is(a.receiver_account, a.receiver.key) && at_associated_address(a.receiver_account.header, a.receiver.key, a.mint.header.key, a.token_program.key, ids),
        token_owner_is(a.sender_account, a.sender.key) && at_associated_address(a.sender_account.header, a.sender.key, a.mint.header.key, a.token_program.key, ids),
{
    lemma_release_accepted(a, ids);
}

/// `cancel` takes a created or funded deal to cancelled and returns the
/// vault's whole balance to the sender's associated account.
pub proof fn law_cancel_refunds_the_vault(a: Cancel, ids: ProgramIds, o: CancelOutcome)
    requires
        cancel_result(a, ids) is Ok,
        cancelled_as(o, a),
    ensures
        escrow_cancellable(a.escrow),
        receipt_agrees(a.receipt, a.escrow),
        o.state.status == EscrowStatus::Cancelled,
        o.receipt.status == o.state.status,
        a.vault.data matches Ok(v) && paid_out(o.refund) == v.amount,
        o.refund matches Some(t) ==> t.to@ == a.sender_account.header.key@,
        token_owner_is(a.sender_account, a.sender.key) && at_associated_address(a.sender_account.header, a.sender.key, a.mint.header.key, a.token_program.key, ids),
{
    lemma_cancel_accepted(a, ids);
}

/// Tokens that anyone adds to a vault never block the end of a deal: once
/// its accounts are accepted, `release` fails only when the vault holds less
/// than the deal's amount, and `cancel` of a created deal never fails.
pub proof fn law_surplus_never_blocks(r: Release, c: Cancel, ids: ProgramIds)
    ensures
        outcome(release_checks(r, ids)) is Ok ==> (release_result(r, ids) is Ok <==> (
            r.vault.data matches Ok(v) && r.escrow.data matches Ok(s) && v.amount >= s.amount)),
        outcome(cancel_checks(c, ids)) is Ok && escrow_status_is(c.escrow, EscrowStatus::Created) ==> cancel_result(c, ids) is Ok,
{
    if outcome(release_checks(r, ids)) is Ok {
        crate::escrow::lemma_release_loaded(r, ids);
    }
}

/// A finished deal stays finished: no instruction accepts a deal that is
/// released or cancelled, nor a deal whose state account has been closed.
pub proof fn law_finished_deals_accept_nothing(d: Deposit, r: Release, c: Cancel, ids: ProgramIds)
    ensures
        (d.escrow.data matches Ok(s) && s.status.is_terminal()) || is_uninitialized(d.escrow.header, ids) ==> deposit_result(d, ids) is Err,
        (r.escrow.data matches Ok(s) && s.status.is_terminal()) || is_uninitialized(r.escrow.header, ids) ==> release_result(r, ids) is Err,
        (c.escrow.data matches Ok(s) && s.status.is_terminal()) || is_uninitialized(c.escrow.header, ids) ==> cancel_result(c, ids) is Err,
{
    if deposit_result(d, ids) is Ok {
        lemma_deposit_accepted(d, ids);
        let k = deposit_checks(d, ids);
        lemma_first_failure_none(k);
        assert(k[1].holds);
    }
    if release_result(r, ids) is Ok {
        lemma_release_accepted(r, ids);
        let k = release_checks(r, ids);
        lemma_first_failure_none(k);
        assert(k[2].holds);
    }
    if cancel_result(c, ids) is Ok {
        lemma_cancel_accepted(c, ids);
        let k = cancel_checks(c, ids);
        lemma_first_failure_none(k);
        assert(k[1].holds);
    }
}

/// Each instruction keeps the receipt in step with the deal: it accepts a
/// deal only while the receipt records the deal's status, and it leaves the
/// two with the same new status.
pub proof fn law_receipt_tracks_the_deal(
    d: Deposit,
    od: DepositOutcome,
    r: Release,
    or: ReleaseOutcome,
    c: Cancel,
    oc: CancelOutcome,
    ids: ProgramIds,
)
    ensures
        deposit_result(d, ids) is Ok && deposited_as(od, d) ==> receipt_agrees(d.receipt, d.escrow) && od.receipt.status == od.state.status,
        release_result(r, ids) is Ok && released_as(or, r) ==> receipt_agrees(r.receipt, r.escrow) && or.receipt.status == or.state.status,
        cancel_result(c, ids) is Ok && cancelled_as(oc, c) ==> receipt_agrees(c.receipt, c.escrow) && oc.receipt.status == oc.state.status,
{
    if deposit_result(d, ids) is Ok {
        lemma_deposit_accepted(d, ids);
    }
    if release_result(r, ids) is Ok {
        lemma_release_accepted(r, ids);
    }
    if cancel_result(c, ids) is Ok {
        lemma_cancel_accepted(c, ids);
    }
}

/// The number of tokens a transfer request moves: none where there is no
/// transfer.
pub open spec fn paid_out(t: Option<crate::token_cpi::TokenTransfer>) -> int {
    match t {
        Some(x) => x.amount as int,
        None => 0,
    }
}


// ---------------------------------------------------------------------------
// What the acceptance of each instruction does not depend on.

/// The receiver's wallet plays no part in `release` beyond naming the deal's
/// receiver and belonging to the System program: it is not written, so
/// whether it is passed writable changes nothing.
pub proof fn law_release_takes_the_receiver_read_only(a: Release, ids: ProgramIds, writable: bool)
    ensures
        release_result(a, ids) == release_result(Release { receiver: AccountHeader { is_writable: writable, ..a.receiver }, ..a }, ids),
{
    reveal(release_escrow_checks);
    let b = Release { receiver: AccountHeader { is_writable: writable, ..a.receiver }, ..a };
    assert(release_checks(a, ids) =~= release_checks(b, ids));
}

/// A wallet is accepted as the receiver whatever its lamports, a wallet that
/// never held any included: `initialize` and `release` decide the same for
/// receivers that differ only in their balance.
pub proof fn law_receiver_balance_is_irrelevant(a: Initialize, r: Release, deal_id: u64, amount: u64, ids: ProgramIds, lamports: u64, lamports2: u64)
    ensures
        initialize_result(a, deal_id, amount, ids) == initialize_result(Initialize { receiver: AccountHeader { lamports, ..a.receiver }, ..a }, deal_id, amount, ids),
        release_result(r, ids) == release_result(Release { receiver: AccountHeader { lamports: lamports2, ..r.receiver }, ..r }, ids),
{
    reveal(release_escrow_checks);
    let b = Initialize { receiver: AccountHeader { lamports, ..a.receiver }, ..a };
    assert(initialize_checks(a, deal_id, ids) =~= initialize_checks(b, deal_id, ids));
    let r2 = Release { receiver: AccountHeader { lamports: lamports2, ..r.receiver }, ..r };
    assert(release_checks(r, ids) =~= release_checks(r2, ids));
}

/// The length of an associated token account's data plays no part in its
/// acceptance: an account that carries extensions, such as the
/// immutable-owner extension of every Token-2022 associated account, is
/// accepted as a plain one is, by `release` and by `cancel`.
pub proof fn law_associated_accounts_of_any_length(r: Release, c: Cancel, ids: ProgramIds, n1: u64, n2: u64, n3: u64)
    ensures
        release_result(r, ids) == release_result(Release {
            receiver_account: Loaded { header: AccountHeader { data_len: n1, ..r.receiver_account.header }, ..r.receiver_account },
            sender_account: Loaded { header: AccountHeader { data_len: n2, ..r.sender_account.header }, ..r.sender_account },
            ..r
        }, ids),
        cancel_result(c, ids) == cancel_result(Cancel {
            sender_account: Loaded { header: AccountHeader { data_len: n3, ..c.sender_account.header }, ..c.sender_account },
            ..c
        }, ids),
{
    reveal(release_escrow_checks);
    reveal(cancel_escrow_checks);
    let r2 = Release {
        receiver_account: Loaded { header: AccountHeader { data_len: n1, ..r.receiver_account.header }, ..r.receiver_account },
        sender_account: Loaded { header: AccountHeader { data_len: n2, ..r.sender_account.header }, ..r.sender_account },
        ..r
    };
    assert(release_checks(r, ids) =~= release_checks(r2, ids));
    let c2 = Cancel {
        sender_account: Loaded { header: AccountHeader { data_len: n3, ..c.sender_account.header }, ..c.sender_account },
        ..c
    };
    assert(cancel_checks(c, ids) =~= cancel_checks(c2, ids));
}

/// `deposit` accepts a deal whatever its amount: deals that differ only in
/// the amount are accepted or refused alike.
pub proof fn law_deposit_accepts_any_amount(a: Deposit, ids: ProgramIds, s: EscrowState, amount: u64)
    requires
        a.escrow.data == Ok::<EscrowState, DecodeError>(s),
    ensures
        deposit_result(a, ids) == deposit_result(Deposit {
            escrow: Loaded { data: Ok(EscrowState { amount, ..s }), ..a.escrow },
            ..a
        }, ids),
{
    reveal(deposit_escrow_checks);
    reveal(deposit_source_checks);
    let b = Deposit { escrow: Loaded { data: Ok(EscrowState { amount, ..s }), ..a.escrow }, ..a };
    assert(deposit_checks(a, ids) =~= deposit_checks(b, ids));
}

/// Once the accounts of `initialize` are accepted, every positive amount
/// opens the deal, and only a zero amount is refused; the last stage alike.
pub proof fn law_initialize_accepts_every_positive_amount(a: Initialize, deal_id: u64, amount: u64, ids: ProgramIds, bump: u8)
    requires
        outcome(initialize_checks(a, deal_id, ids)) is Ok,
    ensures
        initialize_result(a, deal_id, amount, ids) is Ok <==> amount > 0,
        outcome(initialize_stage_checks(a, deal_id, ids, InitializeStage::Finish { escrow_bump: bump })) is Ok ==>
            (initialize_stage_result(a, deal_id, amount, ids, InitializeStage::Finish { escrow_bump: bump }) is Ok <==> amount > 0),
{
}


/// The mint is only read: whether it is passed writable changes no
/// instruction's decision.
pub proof fn law_mint_is_read_only(a: Initialize, d: Deposit, r: Release, c: Cancel, deal_id: u64, amount: u64, ids: ProgramIds, w: bool)
    ensures
        initialize_result(a, deal_id, amount, ids) == initialize_result(Initialize { mint: Loaded { header: AccountHeader { is_writable: w, ..a.mint.header }, ..a.mint }, ..a }, deal_id, amount, ids),
        deposit_result(d, ids) == deposit_result(Deposit { mint: Loaded { header: AccountHeader { is_writable: w, ..d.mint.header }, ..d.mint }, ..d }, ids),
        release_result(r, ids) == release_result(Release { mint: Loaded { header: AccountHeader { is_writable: w, ..r.mint.header }, ..r.mint }, ..r }, ids),
        cancel_result(c, ids) == cancel_result(Cancel { mint: Loaded { header: AccountHeader { is_writable: w, ..c.mint.header }, ..c.mint }, ..c }, ids),
{
    reveal(deposit_escrow_checks);
    reveal(deposit_source_checks);
    reveal(release_escrow_checks);
    reveal(cancel_escrow_checks);
    let a2 = Initialize { mint: Loaded { header: AccountHeader { is_writable: w, ..a.mint.header }, ..a.mint }, ..a };
    assert(initialize_checks(a, deal_id, ids) =~= initialize_checks(a2, deal_id, ids));
    let d2 = Deposit { mint: Loaded { header: AccountHeader { is_writable: w, ..d.mint.header }, ..d.mint }, ..d };
    assert(deposit_checks(d, ids) =~= deposit_checks(d2, ids));
    let r2 = Release { mint: Loaded { header: AccountHeader { is_writable: w, ..r.mint.header }, ..r.mint }, ..r };
    assert(release_checks(r, ids) =~= release_checks(r2, ids));
    let c2 = Cancel { mint: Loaded { header: AccountHeader { is_writable: w, ..c.mint.header }, ..c.mint }, ..c };
    assert(cancel_checks(c, ids) =~= cancel_checks(c2, ids));
}

/// `initialize` only reads the receiver's wallet, and `deposit` only needs
/// the sender's signature: neither has to be passed writable.
pub proof fn law_read_only_wallets(a: Initialize, d: Deposit, deal_id: u64, amount: u64, ids: ProgramIds, w: bool)
    ensures
        initialize_result(a, deal_id, amount, ids) == initialize_result(Initialize { receiver: AccountHeader { is_writable: w, ..a.receiver }, ..a }, deal_id, amount, ids),
        deposit_result(d, ids) == deposit_result(Deposit { sender: AccountHeader { is_writable: w, ..d.sender }, ..d }, ids),
{
    reveal(deposit_escrow_checks);
    reveal(deposit_source_checks);
    let a2 = Initialize { receiver: AccountHeader { is_writable: w, ..a.receiver }, ..a };
    assert(initialize_checks(a, deal_id, ids) =~= initialize_checks(a2, deal_id, ids));
    let d2 = Deposit { sender: AccountHeader { is_writable: w, ..d.sender }, ..d };
    assert(deposit_checks(d, ids) =~= deposit_checks(d2, ids));
}

/// The sender's balance plays no part in the decisions: the rent and fees it
/// pays are the runtime's affair.
pub proof fn law_sender_balance_is_irrelevant(a: Initialize, d: Deposit, r: Release, c: Cancel, deal_id: u64, amount: u64, ids: ProgramIds, l: u64)
    ensures
        initialize_result(a, deal_id, amount, ids) == initialize_result(Initialize { sender: AccountHeader { lamports: l, ..a.sender }, ..a }, deal_id, amount, ids),
        deposit_result(d, ids) == deposit_result(Deposit { sender: AccountHeader { lamports: l, ..d.sender }, ..d }, ids),
        release_result(r, ids) == release_result(Release { sender: AccountHeader { lamports: l, ..r.sender }, ..r }, ids),
        cancel_result(c, ids) == cancel_result(Cancel { sender: AccountHeader { lamports: l, ..c.sender }, ..c }, ids),
{
    reveal(deposit_escrow_checks);
    reveal(deposit_source_checks);
    reveal(release_escrow_checks);
    reveal(cancel_escrow_checks);
    let a2 = Initialize { sender: AccountHeader { lamports: l, ..a.sender }, ..a };
    assert(initialize_checks(a, deal_id, ids) =~= initialize_checks(a2, deal_id, ids));
    let d2 = Deposit { sender: AccountHeader { lamports: l, ..d.sender }, ..d };
    assert(deposit_checks(d, ids) =~= deposit_checks(d2, ids));
    let r2 = Release { sender: AccountHeader { lamports: l, ..r.sender }, ..r };
    assert(release_checks(r, ids) =~= release_checks(r2, ids));
    let c2 = Cancel { sender: AccountHeader { lamports: l, ..c.sender }, ..c };
    assert(cancel_checks(c, ids) =~= cancel_checks(c2, ids));
}

/// Cancelling a deal that was never funded depends on no amount: neither the
/// deal's amount nor what the vault holds.
pub proof fn law_cancel_of_a_created_deal_ignores_amounts(c: Cancel, ids: ProgramIds, s: EscrowState, v: TokenAccountData, amount: u64, held: u64)
    requires
        c.escrow.data == Ok::<EscrowState, DecodeError>(s),
        c.vault.data == Ok::<TokenAccountData, DecodeError>(v),
        s.status == EscrowStatus::Created,
    ensures
        cancel_result(c, ids) == cancel_result(Cancel {
            escrow: Loaded { data: Ok(EscrowState { amount, ..s }), ..c.escrow },
            vault: Loaded { data: Ok(TokenAccountData { amount: held, ..v }), ..c.vault },
            ..c
        }, ids),
{
    reveal(cancel_escrow_checks);
    let c2 = Cancel {
        escrow: Loaded { data: Ok(EscrowState { amount, ..s }), ..c.escrow },
        vault: Loaded { data: Ok(TokenAccountData { amount: held, ..v }), ..c.vault },
        ..c
    };
    assert(cancel_checks(c, ids) =~= cancel_checks(c2, ids));
}

} // verus!
