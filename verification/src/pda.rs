use vstd::prelude::*;
use vstd::bytes::spec_u64_to_le_bytes;

use crate::address::Address;

verus! {

/// The address that the seed list derives under a program, or `None` where
/// the seeds are refused or the hash lies on the curve
/// (`Pubkey::create_program_address`).
pub uninterp spec fn program_address(seeds: Seq<Seq<u8>>, program_id: Seq<u8>) -> Option<Seq<u8>>;

/// The canonical program address of a seed list and its bump: the first bump
/// from 255 downwards that yields an address
/// (`Pubkey::try_find_program_address`).
pub uninterp spec fn canonical_program_address(seeds: Seq<Seq<u8>>, program_id: Seq<u8>) -> Option<(Seq<u8>, u8)>;

/// The most seeds a derivation takes (`MAX_SEEDS` of solana-address).
pub open spec fn max_seeds() -> nat {
    16
}

/// The longest seed a derivation takes (`MAX_SEED_LEN` of solana-address).
pub open spec fn max_seed_len() -> nat {
    32
}

/// The seeds are few and short enough for a derivation.
pub open spec fn seeds_fit(seeds: Seq<Seq<u8>>) -> bool {
    &&& seeds.len() <= max_seeds()
    &&& forall|i: int| 0 <= i < seeds.len() ==> #[trigger] seeds[i].len() <= max_seed_len()
}

/// The seeds fit and leave room for a bump seed.
pub open spec fn seeds_fit_with_bump(seeds: Seq<Seq<u8>>) -> bool {
    seeds_fit(seeds) && seeds.len() < max_seeds()
}

/// Calls `Pubkey::create_program_address` (solana-address) on the seeds and
/// the program id. The contract names its result `program_address`; `Err`
/// becomes `None`. Nothing is stated of which seeds the function refuses or
/// which hashes lie on the curve: that is SHA-256 and curve arithmetic.
#[verifier::external_body]
fn create_program_address(seeds: &Vec<Vec<u8>>, program_id: &Address) -> (r: Option<Address>)
    requires
        seeds_fit(seeds.deep_view()),
    ensures
        r matches Some(a) ==> program_address(seeds.deep_view(), program_id@) == Some(a@),
        r is None ==> program_address(seeds.deep_view(), program_id@) is None,
{
    let slices: Vec<&[u8]> = seeds.iter().map(|s| s.as_slice()).collect();
    let pid = anchor_lang::prelude::Pubkey::new_from_array(program_id.bytes);
    match anchor_lang::prelude::Pubkey::create_program_address(&slices, &pid) {
        Ok(p) => Some(Address { bytes: p.to_bytes() }),
        Err(_) => None,
    }
}

/// Calls `Pubkey::try_find_program_address` (solana-address) on the seeds and
/// the program id. The contract names its result `canonical_program_address`
/// and states what the source shows of a found pair: the seeds followed by the
/// one-byte bump give the address under `create_program_address`.
#[verifier::external_body]
fn try_find_program_address(seeds: &Vec<Vec<u8>>, program_id: &Address) -> (r: Option<(Address, u8)>)
    requires
        seeds_fit_with_bump(seeds.deep_view()),
    ensures
        r matches Some(p) ==> canonical_program_address(seeds.deep_view(), program_id@) == Some((p.0@, p.1)),
        r is None ==> canonical_program_address(seeds.deep_view(), program_id@) is None,
        r matches Some(p) ==> program_address(seeds.deep_view().push(seq![p.1]), program_id@) == Some(p.0@),
{
    let slices: Vec<&[u8]> = seeds.iter().map(|s| s.as_slice()).collect();
    let pid = anchor_lang::prelude::Pubkey::new_from_array(program_id.bytes);
    match anchor_lang::prelude::Pubkey::try_find_program_address(&slices, &pid) {
        Some((p, bump)) => Some((Address { bytes: p.to_bytes() }, bump)),
        None => None,
    }
}

/// The seed tag of a deal's state account: the bytes of `escrow`.
pub open spec fn escrow_tag() -> Seq<u8> {
    seq![101u8, 115u8, 99u8, 114u8, 111u8, 119u8]
}

/// The seed tag of a deal's receipt account: the bytes of `used`.
pub open spec fn receipt_tag() -> Seq<u8> {
    seq![117u8, 115u8, 101u8, 100u8]
}

/// The seed tag of a deal's vault: the bytes of `vault`.
pub open spec fn vault_tag() -> Seq<u8> {
    seq![118u8, 97u8, 117u8, 108u8, 116u8]
}

/// The seeds of a deal's state account: the tag, the sender and the deal id
/// in little-endian bytes.
pub open spec fn escrow_seed_list(sender: Seq<u8>, deal_id: u64) -> Seq<Seq<u8>> {
    seq![escrow_tag(), sender, spec_u64_to_le_bytes(deal_id)]
}

/// The seeds of a deal's receipt account: the tag, the sender and the deal id
/// in little-endian bytes.
pub open spec fn receipt_seed_list(sender: Seq<u8>, deal_id: u64) -> Seq<Seq<u8>> {
    seq![receipt_tag(), sender, spec_u64_to_le_bytes(deal_id)]
}

/// The seeds of a deal's vault: the tag and the address of the deal's state.
pub open spec fn vault_seed_list(escrow: Seq<u8>) -> Seq<Seq<u8>> {
    seq![vault_tag(), escrow]
}

/// The seeds of an associated token account: the wallet, the token program
/// and the mint, derived under the associated-token program.
pub open spec fn associated_token_seed_list(wallet: Seq<u8>, mint: Seq<u8>, token_program: Seq<u8>) -> Seq<Seq<u8>> {
    seq![wallet, token_program, mint]
}

/// A byte vector's deep view is its view.
proof fn lemma_bytes_deep_view(v: &Vec<u8>)
    ensures
        v.deep_view() == v@,
{
    assert(v.deep_view() =~= v@);
}

/// The seed list of a deal's state account.
pub fn escrow_seeds(sender: &Address, deal_id: u64) -> (s: Vec<Vec<u8>>)
    ensures
        s.deep_view() == escrow_seed_list(sender@, deal_id),
        seeds_fit_with_bump(s.deep_view()),
{
    let a = vec![101u8, 115u8, 99u8, 114u8, 111u8, 119u8];
    let b = sender.to_vec();
    let c = vstd::bytes::u64_to_le_bytes(deal_id);
    proof {
        lemma_bytes_deep_view(&a);
        lemma_bytes_deep_view(&b);
        lemma_bytes_deep_view(&c);
    }
    let s = vec![a, b, c];
    assert(s.deep_view() =~= escrow_seed_list(sender@, deal_id));
    s
}

/// The seed list of a deal's receipt account.
pub fn receipt_seeds(sender: &Address, deal_id: u64) -> (s: Vec<Vec<u8>>)
    ensures
        s.deep_view() == receipt_seed_list(sender@, deal_id),
        seeds_fit_with_bump(s.deep_view()),
{
    let a = vec![117u8, 115u8, 101u8, 100u8];
    let b = sender.to_vec();
    let c = vstd::bytes::u64_to_le_bytes(deal_id);
    proof {
        lemma_bytes_deep_view(&a);
        lemma_bytes_deep_view(&b);
        lemma_bytes_deep_view(&c);
    }
    let s = vec![a, b, c];
    assert(s.deep_view() =~= receipt_seed_list(sender@, deal_id));
    s
}

/// The seed list of a deal's vault.
pub fn vault_seeds(escrow: &Address) -> (s: Vec<Vec<u8>>)
    ensures
        s.deep_view() == vault_seed_list(escrow@),
        seeds_fit_with_bump(s.deep_view()),
{
    let a = vec![118u8, 97u8, 117u8, 108u8, 116u8];
    let b = escrow.to_vec();
    proof {
        lemma_bytes_deep_view(&a);
        lemma_bytes_deep_view(&b);
    }
    let s = vec![a, b];
    assert(s.deep_view() =~= vault_seed_list(escrow@));
    s
}

/// A seed list followed by a one-byte bump seed: the signer seeds of a PDA.
pub fn with_bump(seeds: Vec<Vec<u8>>, bump: u8) -> (s: Vec<Vec<u8>>)
    ensures
        s.deep_view() == seeds.deep_view().push(seq![bump]),
{
    let mut s = seeds;
    let b = vec![bump];
    proof {
        lemma_bytes_deep_view(&b);
    }
    s.push(b);
    assert(b@ =~= seq![bump]);
    assert forall|i: int| 0 <= i < s@.len() implies #[trigger] s.deep_view()[i] == seeds.deep_view().push(seq![bump])[i] by {
        if i < seeds@.len() {
            assert(s@[i] == seeds@[i]);
        }
    }
    assert(s.deep_view() =~= seeds.deep_view().push(seq![bump]));
    s
}

/// Whether `key` is the address that the seeds and the bump derive under the
/// program.
pub open spec fn is_program_address(key: Seq<u8>, seeds: Seq<Seq<u8>>, bump: u8, program_id: Seq<u8>) -> bool {
    program_address(seeds.push(seq![bump]), program_id) == Some(key)
}

/// Whether `key` is the canonical address of the seeds under the program.
pub open spec fn is_canonical_address(key: Seq<u8>, seeds: Seq<Seq<u8>>, program_id: Seq<u8>) -> bool {
    canonical_program_address(seeds, program_id) matches Some(p) && p.0 == key
}

/// Checks that `key` is the address that the seeds and the bump derive.
pub fn check_program_address(key: &Address, seeds: Vec<Vec<u8>>, bump: u8, program_id: &Address) -> (r: bool)
    requires
        seeds_fit_with_bump(seeds.deep_view()),
    ensures
        r == is_program_address(key@, seeds.deep_view(), bump, program_id@),
{
    let full = with_bump(seeds, bump);
    match create_program_address(&full, program_id) {
        Some(a) => a.same_as(key),
        None => false,
    }
}

/// Looks up the canonical address of the seeds and its bump.
pub fn find_program_address(seeds: &Vec<Vec<u8>>, program_id: &Address) -> (r: Option<(Address, u8)>)
    requires
        seeds_fit_with_bump(seeds.deep_view()),
    ensures
        r matches Some(p) ==> canonical_program_address(seeds.deep_view(), program_id@) == Some((p.0@, p.1)),
        r is None ==> canonical_program_address(seeds.deep_view(), program_id@) is None,
        r matches Some(p) ==> is_program_address(p.0@, seeds.deep_view(), p.1, program_id@),
{
    try_find_program_address(seeds, program_id)
}

/// The bump of `key` when it is the canonical address of the seeds.
pub fn check_canonical_address(key: &Address, seeds: &Vec<Vec<u8>>, program_id: &Address) -> (r: Option<u8>)
    requires
        seeds_fit_with_bump(seeds.deep_view()),
    ensures
        r is Some <==> is_canonical_address(key@, seeds.deep_view(), program_id@),
        r matches Some(b) ==> canonical_program_address(seeds.deep_view(), program_id@) == Some((key@, b)),
        r matches Some(b) ==> is_program_address(key@, seeds.deep_view(), b, program_id@),
{
    match try_find_program_address(seeds, program_id) {
        Some((a, b)) => {
            if a.same_as(key) {
                Some(b)
            } else {
                None
            }
        },
        None => None,
    }
}

/// The associated token account of a wallet for a mint under a token
/// program: the canonical address of `[wallet, token program, mint]` under
/// the associated-token program.
pub fn associated_token_address(wallet: &Address, mint: &Address, token_program: &Address, ata_program: &Address) -> (r: Option<Address>)
    ensures
        r matches Some(a) ==> is_canonical_address(a@, associated_token_seed_list(wallet@, mint@, token_program@), ata_program@),
        r is None ==> canonical_program_address(associated_token_seed_list(wallet@, mint@, token_program@), ata_program@) is None,
{
    let a = wallet.to_vec();
    let b = token_program.to_vec();
    let c = mint.to_vec();
    proof {
        lemma_bytes_deep_view(&a);
        lemma_bytes_deep_view(&b);
        lemma_bytes_deep_view(&c);
    }
    let seeds = vec![a, b, c];
    assert(seeds.deep_view() =~= associated_token_seed_list(wallet@, mint@, token_program@));
    match try_find_program_address(&seeds, ata_program) {
        Some((a, _b)) => Some(a),
        None => None,
    }
}

} // verus!
