use vstd::prelude::*;

use crate::address::Address;
use crate::pda::{escrow_seed_list, escrow_seeds, with_bump};
use crate::state::EscrowState;

verus! {

/// A `transfer_checked` that the program asks the token program to make.
#[derive(Debug)]
pub struct TokenTransfer {
    /// The token program to invoke.
    pub token_program: Address,
    /// The account the tokens leave.
    pub from: Address,
    /// The mint of the tokens.
    pub mint: Address,
    /// The account the tokens go to.
    pub to: Address,
    /// The authority of `from` that approves the transfer.
    pub authority: Address,
    /// The number of tokens.
    pub amount: u64,
    /// The mint's decimals, which the token program checks.
    pub decimals: u8,
    /// The seeds with which the program signs for `authority`, where the
    /// authority is one of its program addresses.
    pub signer_seeds: Option<Vec<Vec<u8>>>,
}

/// A `close_account` of the vault that the program asks the token program to
/// make: the vault's rent goes to `destination`.
#[derive(Debug)]
pub struct VaultClose {
    pub token_program: Address,
    pub account: Address,
    pub destination: Address,
    pub authority: Address,
    pub signer_seeds: Vec<Vec<u8>>,
}

/// The seeds with which the deal's state signs: its address seeds and bump.
pub open spec fn escrow_signer_seed_list(state: EscrowState) -> Seq<Seq<u8>> {
    escrow_seed_list(state.sender@, state.deal_id).push(seq![state.bump])
}

/// The transfer moves `amount` tokens of `mint` from `from` to `to` under the
/// token program, approved by `authority`.
pub open spec fn is_transfer(t: TokenTransfer, token_program: Address, from: Address, mint: Address, to: Address, authority: Address, amount: u64, decimals: u8) -> bool {
    &&& t.token_program@ == token_program@
    &&& t.from@ == from@
    &&& t.mint@ == mint@
    &&& t.to@ == to@
    &&& t.authority@ == authority@
    &&& t.amount == amount
    &&& t.decimals == decimals
}

/// The transfer out of a deal's vault that the deal's state signs for.
pub open spec fn is_vault_transfer(t: TokenTransfer, escrow_key: Address, state: EscrowState, vault: Address, mint: Address, decimals: u8, destination: Address, token_program: Address, amount: u64) -> bool {
    &&& is_transfer(t, token_program, vault, mint, destination, escrow_key, amount, decimals)
    &&& t.signer_seeds matches Some(s) && s.deep_view() == escrow_signer_seed_list(state)
}

/// What `transfer_from_vault` asks for: nothing for a zero amount, else the
/// signed transfer of the amount out of the vault.
pub open spec fn vault_transfer_is(r: Option<TokenTransfer>, escrow_key: Address, state: EscrowState, vault: Address, mint: Address, decimals: u8, destination: Address, token_program: Address, amount: u64) -> bool {
    if amount == 0 {
        r is None
    } else {
        r matches Some(t) && is_vault_transfer(t, escrow_key, state, vault, mint, decimals, destination, token_program, amount)
    }
}

/// The seeds with which a deal's state signs.
pub fn escrow_signer_seeds(state: &EscrowState) -> (s: Vec<Vec<u8>>)
    ensures
        s.deep_view() == escrow_signer_seed_list(*state),
{
    with_bump(escrow_seeds(&state.sender, state.deal_id), state.bump)
}

/// Moves `amount` tokens out of the deal's vault into `destination`, signed
/// by the deal's state; a zero amount asks for no transfer at all.
pub fn transfer_from_vault(
    escrow_key: &Address,
    state: &EscrowState,
    vault: &Address,
    mint: &Address,
    decimals: u8,
    destination: &Address,
    token_program: &Address,
    amount: u64,
) -> (r: Option<TokenTransfer>)
    ensures
        vault_transfer_is(r, *escrow_key, *state, *vault, *mint, decimals, *destination, *token_program, amount),
{
    if amount == 0 {
        return None;
    }
    Some(TokenTransfer {
        token_program: *token_program,
        from: *vault,
        mint: *mint,
        to: *destination,
        authority: *escrow_key,
        amount,
        decimals,
        signer_seeds: Some(escrow_signer_seeds(state)),
    })
}

/// The closure of the vault: the deal's state signs, the rent goes to the
/// sender.
pub open spec fn is_vault_close(c: VaultClose, escrow_key: Address, state: EscrowState, vault: Address, sender: Address, token_program: Address) -> bool {
    &&& c.token_program@ == token_program@
    &&& c.account@ == vault@
    &&& c.destination@ == sender@
    &&& c.authority@ == escrow_key@
    &&& c.signer_seeds.deep_view() == escrow_signer_seed_list(state)
}

/// Closes the deal's vault into the sender, signed by the deal's state.
pub fn close_vault(escrow_key: &Address, state: &EscrowState, vault: &Address, sender: &Address, token_program: &Address) -> (c: VaultClose)
    ensures
        is_vault_close(c, *escrow_key, *state, *vault, *sender, *token_program),
{
    VaultClose {
        token_program: *token_program,
        account: *vault,
        destination: *sender,
        authority: *escrow_key,
        signer_seeds: escrow_signer_seeds(state),
    }
}

} // verus!
