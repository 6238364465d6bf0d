use std::str::FromStr;

use anchor_lang::prelude::Pubkey;
use escrow::address::Address;
use escrow::pda::{
    associated_token_address, check_canonical_address, check_program_address, escrow_seeds,
    find_program_address, receipt_seeds, vault_seeds, with_bump,
};
use escrow::state::{EscrowState, EscrowStatus};
use escrow::token_cpi::{close_vault, escrow_signer_seeds, transfer_from_vault};

fn addr(p: &Pubkey) -> Address {
    Address::new(p.to_bytes())
}

fn program_id() -> Pubkey {
    Pubkey::from_str("5yumooWcYbtWgi5KwiJnbMkqsMJjhDvw3JsJGgY25hg2").unwrap()
}

fn sender() -> Pubkey {
    Pubkey::new_from_array([1; 32])
}

#[test]
fn seed_lists_hold_tags_keys_and_little_endian_ids() {
    let s = sender();
    let id: u64 = 0x0102_0304_0506_0708;
    assert_eq!(escrow_seeds(&addr(&s), id), vec![b"escrow".to_vec(), s.to_bytes().to_vec(), vec![8, 7, 6, 5, 4, 3, 2, 1]]);
    assert_eq!(receipt_seeds(&addr(&s), id), vec![b"used".to_vec(), s.to_bytes().to_vec(), id.to_le_bytes().to_vec()]);
    assert_eq!(vault_seeds(&addr(&s)), vec![b"vault".to_vec(), s.to_bytes().to_vec()]);
    assert_eq!(with_bump(vault_seeds(&addr(&s)), 254), vec![b"vault".to_vec(), s.to_bytes().to_vec(), vec![254]]);
}

#[test]
fn canonical_address_matches_the_runtime_derivation() {
    let s = sender();
    let pid = program_id();
    let (expected, bump) = Pubkey::find_program_address(&[b"escrow", s.as_ref(), &7u64.to_le_bytes()], &pid);
    let (found, found_bump) = find_program_address(&escrow_seeds(&addr(&s), 7), &addr(&pid)).unwrap();
    assert_eq!(found.bytes, expected.to_bytes());
    assert_eq!(found_bump, bump);
    assert_eq!(check_canonical_address(&addr(&expected), &escrow_seeds(&addr(&s), 7), &addr(&pid)), Some(bump));
    assert_eq!(check_canonical_address(&addr(&s), &escrow_seeds(&addr(&s), 7), &addr(&pid)), None);
}

#[test]
fn stored_bump_reproduces_the_address() {
    let s = sender();
    let pid = program_id();
    let (expected, bump) = Pubkey::find_program_address(&[b"escrow", s.as_ref(), &7u64.to_le_bytes()], &pid);
    assert!(check_program_address(&addr(&expected), escrow_seeds(&addr(&s), 7), bump, &addr(&pid)));
    assert!(!check_program_address(&addr(&expected), escrow_seeds(&addr(&s), 8), bump, &addr(&pid)));
    assert!(!check_program_address(&addr(&expected), escrow_seeds(&addr(&s), 7), bump.wrapping_sub(1), &addr(&pid)));
}

#[test]
fn associated_token_address_matches_the_interface_crate() {
    let wallet = Pubkey::new_from_array([5; 32]);
    let mint = Pubkey::new_from_array([6; 32]);
    let t22 = anchor_spl::token_2022::ID;
    let expected = anchor_spl::associated_token::get_associated_token_address_with_program_id(&wallet, &mint, &t22);
    let got = associated_token_address(&addr(&wallet), &addr(&mint), &addr(&t22), &addr(&anchor_spl::associated_token::ID)).unwrap();
    assert_eq!(got.bytes, expected.to_bytes());
    let legacy = anchor_spl::associated_token::get_associated_token_address(&wallet, &mint);
    assert_ne!(got.bytes, legacy.to_bytes());
}

#[test]
fn addresses_compare_by_bytes() {
    let a = addr(&sender());
    let mut other = a;
    assert!(a.same_as(&other));
    other.bytes[31] ^= 1;
    assert!(!a.same_as(&other));
    assert_eq!(a.to_vec(), sender().to_bytes().to_vec());
}

fn state() -> EscrowState {
    EscrowState {
        sender: addr(&sender()),
        receiver: Address::new([2; 32]),
        mint: Address::new([3; 32]),
        amount: 500,
        deal_id: 9,
        bump: 251,
        status: EscrowStatus::Funded,
    }
}

#[test]
fn vault_transfers_are_signed_by_the_deal() {
    let st = state();
    let escrow_key = Address::new([4; 32]);
    let vault = Address::new([5; 32]);
    let dest = Address::new([6; 32]);
    let tp = addr(&anchor_spl::token_2022::ID);
    assert!(transfer_from_vault(&escrow_key, &st, &vault, &st.mint, 6, &dest, &tp, 0).is_none());
    let t = transfer_from_vault(&escrow_key, &st, &vault, &st.mint, 6, &dest, &tp, 42).unwrap();
    assert_eq!(t.amount, 42);
    assert_eq!(t.decimals, 6);
    assert!(t.from.same_as(&vault));
    assert!(t.to.same_as(&dest));
    assert!(t.authority.same_as(&escrow_key));
    assert!(t.token_program.same_as(&tp));
    let seeds = vec![b"escrow".to_vec(), sender().to_bytes().to_vec(), 9u64.to_le_bytes().to_vec(), vec![251]];
    assert_eq!(t.signer_seeds.unwrap(), seeds);
    assert_eq!(escrow_signer_seeds(&st), seeds);
    let c = close_vault(&escrow_key, &st, &vault, &st.sender, &tp);
    assert!(c.account.same_as(&vault));
    assert!(c.destination.same_as(&st.sender));
    assert!(c.authority.same_as(&escrow_key));
    assert_eq!(c.signer_seeds, seeds);
}
