use vstd::prelude::*;

use crate::address::Address;
use crate::error::BuiltinError;
use crate::instructions::base_mint_len;
use anchor_lang::prelude::ProgramError as RuntimeError;
use anchor_spl::token_2022::spl_token_2022::extension::{BaseStateWithExtensions, ExtensionType, StateWithExtensions};
use anchor_spl::token_2022::spl_token_2022::state::{Account as TokenAccountState, Mint as MintState};

verus! {

/// The extension types that a Token-2022 mint's data lists, as their numbers,
/// or the error with which the token program refuses the data
/// (`StateWithExtensions::<MintState>::unpack` and `get_extension_types`).
pub uninterp spec fn mint_extension_types_of(mint_data: Seq<u8>) -> Result<Seq<u16>, BuiltinError>;

/// The length of a Token-2022 token account that carries the account
/// extensions of the given numbers (`ExtensionType::try_calculate_account_len`
/// for `Account`).
pub uninterp spec fn token_account_len_with_extensions(types: Seq<u16>) -> u64;

/// The largest number of an extension type (`PausableAccount`).
pub open spec fn last_extension_type() -> u16 {
    27
}

/// The length of a token account without extensions, which the source of
/// both token programs fixes at 165.
pub open spec fn base_token_account_len() -> u64 {
    165
}

/// The account extensions that one mint extension calls for on the token
/// accounts of the mint: a transfer-fee amount for a transfer-fee
/// configuration, a non-transferable marker and an immutable owner for a
/// non-transferable mint, a transfer-hook marker for a transfer hook, and a
/// pausable marker for a pausable mint.
pub open spec fn account_extensions_for(t: u16) -> Seq<u16> {
    if t == 1 {
        seq![2u16]
    } else if t == 9 {
        seq![13u16, 7u16]
    } else if t == 14 {
        seq![15u16]
    } else if t == 26 {
        seq![27u16]
    } else {
        seq![]
    }
}

/// The account extensions that a mint's extensions call for, in order.
pub open spec fn required_account_extensions(types: Seq<u16>) -> Seq<u16>
    decreases types.len(),
{
    if types.len() == 0 {
        seq![]
    } else {
        required_account_extensions(types.drop_last()) + account_extensions_for(types.last())
    }
}

/// An account extension that a mint extension can call for.
pub open spec fn is_required_kind(t: u16) -> bool {
    t == 2 || t == 7 || t == 13 || t == 15 || t == 27
}

/// Each account extension that a mint's extensions call for is one of those
/// that a mint extension can call for.
proof fn lemma_required_kinds(types: Seq<u16>)
    ensures
        forall|i: int| 0 <= i < required_account_extensions(types).len() ==> is_required_kind(#[trigger] required_account_extensions(types)[i]),
    decreases types.len(),
{
    if types.len() > 0 {
        lemma_required_kinds(types.drop_last());
        let a = required_account_extensions(types.drop_last());
        let b = account_extensions_for(types.last());
        assert forall|i: int| 0 <= i < (a + b).len() implies is_required_kind(#[trigger] (a + b)[i]) by {
            if i < a.len() {
                assert((a + b)[i] == a[i]);
            } else {
                assert((a + b)[i] == b[i - a.len()]);
            }
        }
    }
}

/// Reads `Pack::LEN` of the Token-2022 `Account` state (spl-token-2022
/// interface), the length of a token account without extensions, which its
/// source fixes at 165.
#[verifier::external_body]
fn packed_token_account_len() -> (n: u64)
    ensures
        n == base_token_account_len(),
{
    <anchor_spl::token_2022::spl_token_2022::state::Account as anchor_lang::solana_program::program_pack::Pack>::LEN as u64
}

/// Reads `TokenAccount::LEN` of anchor-spl's token module, the length of an
/// account of the original token program, which its source takes from
/// spl-token's `Account::LEN`, 165.
#[verifier::external_body]
fn legacy_token_account_len() -> (n: u64)
    ensures
        n == base_token_account_len(),
{
    anchor_spl::token::TokenAccount::LEN as u64
}

/// Decodes a Token-2022 mint's data with extensions
/// (`StateWithExtensions::<MintState>::unpack`) and lists its extension types
/// (`get_extension_types`). The contract names the result
/// `mint_extension_types_of` and states what the source shows of it: the
/// decoder refuses data only with `InvalidAccountData` or
/// `UninitializedAccount`, listed types are initialized extension types,
/// and data of exactly a mint's length carries no extension.
#[verifier::external_body]
fn mint_extension_types(mint_data: &Vec<u8>) -> (r: Result<Vec<u16>, BuiltinError>)
    ensures
        match r {
            Ok(t) => mint_extension_types_of(mint_data@) == Ok::<Seq<u16>, BuiltinError>(t@),
            Err(e) => mint_extension_types_of(mint_data@) == Err::<Seq<u16>, BuiltinError>(e),
        },
        r matches Ok(t) ==> forall|i: int| 0 <= i < t@.len() ==> 1 <= #[trigger] t@[i] <= last_extension_type(),
        r matches Ok(t) ==> (mint_data@.len() == base_mint_len() ==> t@.len() == 0),
{
    let listed = StateWithExtensions::<MintState>::unpack(mint_data).and_then(|s| s.get_extension_types());
    match listed {
        Ok(types) => Ok(types.into_iter().map(u16::from).collect()),
        Err(RuntimeError::UninitializedAccount) => Err(BuiltinError::UninitializedAccount),
        Err(_) => Err(BuiltinError::InvalidAccountData),
    }
}

/// Calls `ExtensionType::get_required_init_account_extensions` (spl-token-2022
/// interface) on extension types given by their numbers. Its source maps each
/// mint extension to the account extensions it calls for, in order, which the
/// contract states exactly.
#[verifier::external_body]
fn account_extensions_required(types: &Vec<u16>) -> (r: Vec<u16>)
    requires
        forall|i: int| 0 <= i < types@.len() ==> #[trigger] types@[i] <= last_extension_type(),
    ensures
        r@ == required_account_extensions(types@),
{
    let kinds: Vec<ExtensionType> = types
        .iter()
        .map(|t| ExtensionType::try_from(*t).unwrap_or(ExtensionType::Uninitialized))
        .collect();
    ExtensionType::get_required_init_account_extensions(&kinds).into_iter().map(u16::from).collect()
}

/// Calls `ExtensionType::try_calculate_account_len::<Account>` (spl-token-2022
/// interface) on account extension types given by their numbers. The contract
/// names the result `token_account_len_with_extensions` and states what the
/// source shows: without extensions the length is that of a plain token
/// account. The source fails only for an extension of variable length, which
/// the account extensions admitted here are not.
#[verifier::external_body]
fn account_len_with_extensions(types: &Vec<u16>) -> (n: u64)
    requires
        forall|i: int| 0 <= i < types@.len() ==> is_required_kind(#[trigger] types@[i]),
    ensures
        n == token_account_len_with_extensions(types@),
        types@.len() == 0 ==> n == base_token_account_len(),
{
    let kinds: Vec<ExtensionType> = types
        .iter()
        .map(|t| ExtensionType::try_from(*t).unwrap_or(ExtensionType::Uninitialized))
        .collect();
    match ExtensionType::try_calculate_account_len::<TokenAccountState>(&kinds) {
        Ok(n) => n as u64,
        Err(_) => 0,
    }
}

/// The length of the data of a token account of a mint, or the error with
/// which the token program refuses the mint's data. For a Token-2022 mint it
/// is the length of an account with the account extensions that the mint's
/// extensions call for, which for a mint without extension data is a plain
/// token account; for a mint of the original token program, a plain token
/// account.
pub open spec fn token_account_space(mint_owner: Seq<u8>, mint_data: Seq<u8>, token_2022: Seq<u8>) -> Result<u64, BuiltinError> {
    if mint_owner != token_2022 {
        Ok(base_token_account_len())
    } else {
        match mint_extension_types_of(mint_data) {
            Err(e) => Err(e),
            Ok(t) => Ok(if mint_data.len() == base_mint_len() {
                base_token_account_len()
            } else {
                token_account_len_with_extensions(required_account_extensions(t))
            }),
        }
    }
}

/// Computes the length of the data of a token account of a mint.
pub fn token_account_space_of(mint_owner: &Address, mint_data: &Vec<u8>, token_2022: &Address) -> (r: Result<u64, BuiltinError>)
    ensures
        r == token_account_space(mint_owner@, mint_data@, token_2022@),
{
    if !mint_owner.same_as(token_2022) {
        return Ok(legacy_token_account_len());
    }
    match mint_extension_types(mint_data) {
        Err(e) => Err(e),
        Ok(t) => {
            let required = account_extensions_required(&t);
            proof {
                lemma_required_kinds(t@);
                if mint_data@.len() == base_mint_len() {
                    assert(t@ =~= Seq::<u16>::empty());
                    assert(required@ =~= Seq::<u16>::empty());
                }
            }
            let n = account_len_with_extensions(&required);
            Ok(n)
        },
    }
}

/// The length of a token account without extensions of Token-2022.
pub fn plain_token_account_len() -> (n: u64)
    ensures
        n == base_token_account_len(),
{
    packed_token_account_len()
}

} // verus!
