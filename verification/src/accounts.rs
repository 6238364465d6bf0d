use vstd::prelude::*;

use crate::address::{Address, ProgramIds};
use crate::error::{BuiltinError, FrameworkError, ProgramError};

verus! {

/// What an instruction sees of an account besides its data.
#[derive(Clone, Copy, Debug)]
pub struct AccountHeader {
    /// The account's address.
    pub key: Address,
    /// The program that owns the account.
    pub owner: Address,
    /// The account's lamport balance.
    pub lamports: u64,
    /// Whether the transaction carries the account's signature.
    pub is_signer: bool,
    /// Whether the transaction passes the account writable.
    pub is_writable: bool,
    /// Whether the account is a program.
    pub executable: bool,
    /// The length of the account's data.
    pub data_len: u64,
}

/// Why an account's data does not decode as the type an instruction
/// expects. The escrow's own accounts start with an eight-byte type
/// discriminator and decode the rest; mints and token accounts are decoded by
/// the token program's own decoder, which answers with a built-in error.
#[derive(Clone, Copy, Debug, PartialEq, Eq, Structural)]
pub enum DecodeError {
    /// The data is shorter than a discriminator.
    DiscriminatorNotFound,
    /// The data starts with another type's discriminator.
    DiscriminatorMismatch,
    /// The bytes after the discriminator do not decode as the type.
    DidNotDeserialize,
    /// The token program's decoder refuses the data.
    InvalidAccountData,
    /// The token program's decoder finds a mint or account never initialized.
    UninitializedAccount,
}

impl DecodeError {
    /// The error that rejects the instruction when an account does not decode.
    pub open spec fn error_spec(self) -> ProgramError {
        match self {
            DecodeError::DiscriminatorNotFound => ProgramError::Framework(FrameworkError::AccountDiscriminatorNotFound),
            DecodeError::DiscriminatorMismatch => ProgramError::Framework(FrameworkError::AccountDiscriminatorMismatch),
            DecodeError::DidNotDeserialize => ProgramError::Framework(FrameworkError::AccountDidNotDeserialize),
            DecodeError::InvalidAccountData => ProgramError::Builtin(BuiltinError::InvalidAccountData),
            DecodeError::UninitializedAccount => ProgramError::Builtin(BuiltinError::UninitializedAccount),
        }
    }

    /// The error that rejects the instruction when an account does not decode.
    pub fn error(&self) -> (e: ProgramError)
        ensures
            e == self.error_spec(),
    {
        match self {
            DecodeError::DiscriminatorNotFound => ProgramError::Framework(FrameworkError::AccountDiscriminatorNotFound),
            DecodeError::DiscriminatorMismatch => ProgramError::Framework(FrameworkError::AccountDiscriminatorMismatch),
            DecodeError::DidNotDeserialize => ProgramError::Framework(FrameworkError::AccountDidNotDeserialize),
            DecodeError::InvalidAccountData => ProgramError::Builtin(BuiltinError::InvalidAccountData),
            DecodeError::UninitializedAccount => ProgramError::Builtin(BuiltinError::UninitializedAccount),
        }
    }
}

/// An account together with its data decoded as the type the instruction
/// expects, or why the data does not decode as that type.
#[derive(Debug)]
pub struct Loaded<T> {
    pub header: AccountHeader,
    pub data: Result<T, DecodeError>,
}

/// Why the data did not decode, or `None` where it did.
pub open spec fn failure_of<T>(data: Result<T, DecodeError>) -> Option<DecodeError> {
    match data {
        Ok(_) => None,
        Err(e) => Some(e),
    }
}

/// The requirement that the data decodes, rejected with the decoder's error.
pub open spec fn decode_check(failure: Option<DecodeError>) -> Check {
    match failure {
        None => check(true, FrameworkError::AccountDidNotDeserialize),
        Some(e) => Check { holds: false, error: e.error_spec(), aborts: false },
    }
}

/// Why the data of an account did not decode, or `None` where it did.
pub fn decode_failure<T: Copy>(data: &Result<T, DecodeError>) -> (r: Option<DecodeError>)
    ensures
        r == failure_of(*data),
{
    match data {
        Ok(_) => None,
        Err(e) => Some(*e),
    }
}

/// The requirement that the data decodes, built in executable code.
pub fn make_decode_check(failure: Option<DecodeError>) -> (c: Check)
    ensures
        c == decode_check(failure),
{
    match failure {
        None => make_check(true, FrameworkError::AccountDidNotDeserialize),
        Some(e) => Check { holds: false, error: e.error(), aborts: false },
    }
}

/// What the escrow reads of a token mint.
#[derive(Clone, Copy, Debug)]
pub struct MintData {
    /// The mint's freeze authority, if it has one.
    pub freeze_authority: Option<Address>,
    /// The mint's number of decimals.
    pub decimals: u8,
}

/// What the escrow reads of a token account.
#[derive(Clone, Copy, Debug)]
pub struct TokenAccountData {
    /// The mint of the tokens the account holds.
    pub mint: Address,
    /// The account's owner, the authority that may move its tokens.
    pub owner: Address,
    /// The number of tokens the account holds.
    pub amount: u64,
}

/// One requirement on an instruction's accounts and the error that rejects
/// the instruction when the requirement fails. A requirement that `aborts`
/// stops the program without an error of its own where it fails: the
/// lookup of a derived address that finds no address panics.
#[derive(Clone, Copy, Debug)]
pub struct Check {
    pub holds: bool,
    pub error: ProgramError,
    pub aborts: bool,
}

/// The error of the first failing requirement at or after position `i`.
pub open spec fn first_failure_from(checks: Seq<Check>, i: int) -> Option<ProgramError>
    decreases checks.len() - i,
{
    if i < 0 || i >= checks.len() {
        None
    } else if !checks[i].holds {
        Some(checks[i].error)
    } else {
        first_failure_from(checks, i + 1)
    }
}

/// The error of the first failing requirement, in order; `None` when all hold.
pub open spec fn first_failure(checks: Seq<Check>) -> Option<ProgramError> {
    first_failure_from(checks, 0)
}

/// Whether every requirement holds.
pub open spec fn all_hold(checks: Seq<Check>) -> bool {
    forall|i: int| 0 <= i < checks.len() ==> #[trigger] checks[i].holds
}

/// Whether the first failing requirement at or after position `i` aborts.
pub open spec fn aborts_from(checks: Seq<Check>, i: int) -> bool
    decreases checks.len() - i,
{
    if i < 0 || i >= checks.len() {
        false
    } else if !checks[i].holds {
        checks[i].aborts
    } else {
        aborts_from(checks, i + 1)
    }
}

/// Whether the program aborts on the requirements: the first that fails is
/// one that aborts.
pub open spec fn aborts(checks: Seq<Check>) -> bool {
    aborts_from(checks, 0)
}

/// The outcome of a list of requirements: `Ok` when all hold, else the
/// error of the first that fails.
pub open spec fn outcome(checks: Seq<Check>) -> Result<(), ProgramError> {
    match first_failure(checks) {
        Some(e) => Err(e),
        None => Ok(()),
    }
}

proof fn lemma_first_failure_from_none(checks: Seq<Check>, i: int)
    requires
        0 <= i <= checks.len(),
    ensures
        first_failure_from(checks, i) is None <==> (forall|j: int| i <= j < checks.len() ==> #[trigger] checks[j].holds),
    decreases checks.len() - i,
{
    if i < checks.len() {
        lemma_first_failure_from_none(checks, i + 1);
    }
}

/// No requirement fails exactly when all hold.
pub proof fn lemma_first_failure_none(checks: Seq<Check>)
    ensures
        first_failure(checks) is None <==> all_hold(checks),
{
    lemma_first_failure_from_none(checks, 0);
}

proof fn lemma_first_failure_from_append(a: Seq<Check>, b: Seq<Check>, i: int)
    requires
        0 <= i <= a.len(),
    ensures
        first_failure_from(a + b, i) == (if first_failure_from(a, i) is Some {
            first_failure_from(a, i)
        } else {
            first_failure_from(b, 0)
        }),
    decreases a.len() - i,
{
    if i < a.len() {
        assert((a + b)[i] == a[i]);
        lemma_first_failure_from_append(a, b, i + 1);
    } else {
        lemma_first_failure_from_shift(a, b, 0);
    }
}

proof fn lemma_first_failure_from_shift(a: Seq<Check>, b: Seq<Check>, j: int)
    requires
        0 <= j <= b.len(),
    ensures
        first_failure_from(a + b, a.len() + j) == first_failure_from(b, j),
    decreases b.len() - j,
{
    if j < b.len() {
        assert((a + b)[a.len() + j] == b[j]);
        lemma_first_failure_from_shift(a, b, j + 1);
    }
}

proof fn lemma_aborts_from_append(a: Seq<Check>, b: Seq<Check>, i: int)
    requires
        0 <= i <= a.len(),
    ensures
        aborts_from(a + b, i) == (if first_failure_from(a, i) is Some {
            aborts_from(a, i)
        } else {
            aborts_from(b, 0)
        }),
    decreases a.len() - i,
{
    if i < a.len() {
        assert((a + b)[i] == a[i]);
        lemma_aborts_from_append(a, b, i + 1);
    } else {
        lemma_aborts_from_shift(a, b, 0);
    }
}

proof fn lemma_aborts_from_shift(a: Seq<Check>, b: Seq<Check>, j: int)
    requires
        0 <= j <= b.len(),
    ensures
        aborts_from(a + b, a.len() + j) == aborts_from(b, j),
    decreases b.len() - j,
{
    if j < b.len() {
        assert((a + b)[a.len() + j] == b[j]);
        lemma_aborts_from_shift(a, b, j + 1);
    }
}

proof fn lemma_aborts_from_fails(checks: Seq<Check>, i: int)
    requires
        0 <= i <= checks.len(),
    ensures
        aborts_from(checks, i) ==> first_failure_from(checks, i) is Some,
    decreases checks.len() - i,
{
    if i < checks.len() {
        lemma_aborts_from_fails(checks, i + 1);
    }
}

/// A list of requirements aborts only where one of them fails.
pub proof fn lemma_aborts_fails(checks: Seq<Check>)
    ensures
        aborts(checks) ==> outcome(checks) is Err,
{
    lemma_aborts_from_fails(checks, 0);
}

/// Two lists in a row abort where the first aborts, or, where the first
/// holds, where the second aborts.
pub proof fn lemma_aborts_append(a: Seq<Check>, b: Seq<Check>)
    ensures
        aborts(a + b) == (if outcome(a) is Err {
            aborts(a)
        } else {
            aborts(b)
        }),
{
    lemma_aborts_from_append(a, b, 0);
}

/// The outcome of two lists in a row is that of the first list, or, where the
/// first list holds, that of the second.
pub proof fn lemma_outcome_append(a: Seq<Check>, b: Seq<Check>)
    ensures
        outcome(a + b) == (if outcome(a) is Err {
            outcome(a)
        } else {
            outcome(b)
        }),
{
    lemma_first_failure_from_append(a, b, 0);
}

/// Finds the first failing requirement.
pub fn find_first_failure(checks: &Vec<Check>) -> (r: Option<ProgramError>)
    ensures
        r == first_failure(checks@),
{
    let mut i: usize = 0;
    while i < checks.len()
        invariant
            0 <= i <= checks@.len(),
            first_failure(checks@) == first_failure_from(checks@, i as int),
        decreases checks@.len() - i,
    {
        if !checks[i].holds {
            return Some(checks[i].error);
        }
        i = i + 1;
    }
    None
}

/// Whether the first failing requirement aborts.
pub fn first_failure_aborts(checks: &Vec<Check>) -> (r: bool)
    ensures
        r == aborts(checks@),
{
    let mut i: usize = 0;
    while i < checks.len()
        invariant
            0 <= i <= checks@.len(),
            aborts(checks@) == aborts_from(checks@, i as int),
        decreases checks@.len() - i,
    {
        if !checks[i].holds {
            return checks[i].aborts;
        }
        i = i + 1;
    }
    false
}

/// The requirement that an account lies at an address derived by lookup:
/// where the lookup finds no address, the program aborts.
pub open spec fn derived_check(holds: bool, unusable: bool, error: FrameworkError) -> Check {
    Check { holds, error: ProgramError::Framework(error), aborts: unusable }
}

/// The requirement that an account lies at an address derived by lookup,
/// built in executable code.
pub fn make_derived_check(holds: bool, unusable: bool, error: FrameworkError) -> (c: Check)
    ensures
        c == derived_check(holds, unusable, error),
{
    Check { holds, error: ProgramError::Framework(error), aborts: unusable }
}

/// A requirement built from its parts.
pub open spec fn check(holds: bool, error: FrameworkError) -> Check {
    Check { holds, error: ProgramError::Framework(error), aborts: false }
}

/// An account counts as never created (or closed) while the System program
/// owns it and it holds no lamports.
pub open spec fn is_uninitialized(h: AccountHeader, ids: ProgramIds) -> bool {
    h.owner@ == ids.system@ && h.lamports == 0
}

/// Whether a program is one of the two token programs.
pub open spec fn is_token_program(key: Seq<u8>, ids: ProgramIds) -> bool {
    key == ids.token@ || key == ids.token_2022@
}

/// Loading an account that must sign.
pub open spec fn signer_checks(h: AccountHeader) -> Seq<Check> {
    seq![check(h.is_signer, FrameworkError::AccountNotSigner)]
}

/// Loading an account of the escrow program: it must exist, belong to the
/// escrow program and decode as the expected type.
pub open spec fn program_account_checks(h: AccountHeader, failure: Option<DecodeError>, ids: ProgramIds) -> Seq<Check> {
    seq![
        check(!is_uninitialized(h, ids), FrameworkError::AccountNotInitialized),
        check(h.owner@ == ids.escrow@, FrameworkError::AccountOwnedByWrongProgram),
        decode_check(failure),
    ]
}

/// Loading a mint or a token account: it must exist, belong to one of the
/// token programs and decode as the expected type.
pub open spec fn token_account_checks(h: AccountHeader, failure: Option<DecodeError>, ids: ProgramIds) -> Seq<Check> {
    seq![
        check(!is_uninitialized(h, ids), FrameworkError::AccountNotInitialized),
        check(is_token_program(h.owner@, ids), FrameworkError::AccountOwnedByWrongProgram),
        decode_check(failure),
    ]
}

/// Loading a wallet: the System program must own it.
pub open spec fn system_account_checks(h: AccountHeader, ids: ProgramIds) -> Seq<Check> {
    seq![check(h.owner@ == ids.system@, FrameworkError::AccountNotSystemOwned)]
}

/// Loading the token program: it must be one of the token programs and
/// executable.
pub open spec fn token_program_checks(h: AccountHeader, ids: ProgramIds) -> Seq<Check> {
    seq![
        check(is_token_program(h.key@, ids), FrameworkError::InvalidProgramId),
        check(h.executable, FrameworkError::InvalidProgramExecutable),
    ]
}

/// Loading the System program: it must be the System program and executable.
pub open spec fn system_program_checks(h: AccountHeader, ids: ProgramIds) -> Seq<Check> {
    seq![
        check(h.key@ == ids.system@, FrameworkError::InvalidProgramId),
        check(h.executable, FrameworkError::InvalidProgramExecutable),
    ]
}

/// No two of the keys are the same.
pub open spec fn keys_distinct(keys: Seq<Seq<u8>>) -> bool {
    forall|i: int, j: int| 0 <= i < j < keys.len() ==> keys[i] != keys[j]
}

/// The accounts that the instruction writes back are all different.
pub open spec fn duplicate_checks(keys: Seq<Seq<u8>>) -> Seq<Check> {
    seq![check(keys_distinct(keys), FrameworkError::ConstraintDuplicateMutableAccount)]
}

/// The views of a list of addresses.
pub open spec fn key_views(keys: Seq<Address>) -> Seq<Seq<u8>> {
    keys.map_values(|a: Address| a@)
}

/// Whether the addresses are pairwise different.
pub fn distinct(keys: &Vec<Address>) -> (r: bool)
    ensures
        r == keys_distinct(key_views(keys@)),
{
    let n: usize = keys.len();
    let ghost v = key_views(keys@);
    let mut i: usize = 0;
    while i < n
        invariant
            n == keys@.len(),
            v == key_views(keys@),
            v.len() == n,
            0 <= i <= n,
            forall|p: int, q: int| 0 <= p < i && p < q < n ==> v[p] != v[q],
        decreases n - i,
    {
        let mut j: usize = i + 1;
        while j < n
            invariant
                n == keys@.len(),
                v == key_views(keys@),
                v.len() == n,
                0 <= i < n,
                i + 1 <= j <= n,
                forall|p: int, q: int| 0 <= p < i && p < q < n ==> v[p] != v[q],
                forall|q: int| i < q < j ==> v[i as int] != v[q],
            decreases n - j,
        {
            if keys[i].same_as(&keys[j]) {
                assert(v[i as int] == v[j as int]);
                return false;
            }
            j = j + 1;
        }
        i = i + 1;
    }
    true
}

/// The requirement that the writable accounts are all different.
pub fn duplicates(keys: &Vec<Address>) -> (r: Vec<Check>)
    ensures
        r@ == duplicate_checks(key_views(keys@)),
{
    let r = vec![make_check(distinct(keys), FrameworkError::ConstraintDuplicateMutableAccount)];
    assert(r@ =~= duplicate_checks(key_views(keys@)));
    r
}

/// A requirement, built in executable code.
pub fn make_check(holds: bool, error: FrameworkError) -> (c: Check)
    ensures
        c == check(holds, error),
{
    Check { holds, error: ProgramError::Framework(error), aborts: false }
}

/// Whether the account counts as never created.
pub fn uninitialized(h: &AccountHeader, ids: &ProgramIds) -> (r: bool)
    ensures
        r == is_uninitialized(*h, *ids),
{
    h.owner.same_as(&ids.system) && h.lamports == 0
}

/// Whether the key is one of the token programs.
pub fn token_program_key(key: &Address, ids: &ProgramIds) -> (r: bool)
    ensures
        r == is_token_program(key@, *ids),
{
    key.same_as(&ids.token) || key.same_as(&ids.token_2022)
}

/// Appends requirements to a list.
pub fn push_checks(list: &mut Vec<Check>, more: Vec<Check>)
    ensures
        final(list)@ == old(list)@ + more@,
{
    let mut more = more;
    list.append(&mut more);
}

/// The requirements of loading an account that must sign.
pub fn signer(h: &AccountHeader) -> (r: Vec<Check>)
    ensures
        r@ == signer_checks(*h),
{
    let r = vec![make_check(h.is_signer, FrameworkError::AccountNotSigner)];
    assert(r@ =~= signer_checks(*h));
    r
}

/// The requirements of loading an account of the escrow program.
pub fn program_account(h: &AccountHeader, failure: Option<DecodeError>, ids: &ProgramIds) -> (r: Vec<Check>)
    ensures
        r@ == program_account_checks(*h, failure, *ids),
{
    let r = vec![
        make_check(!uninitialized(h, ids), FrameworkError::AccountNotInitialized),
        make_check(h.owner.same_as(&ids.escrow), FrameworkError::AccountOwnedByWrongProgram),
        make_decode_check(failure),
    ];
    assert(r@ =~= program_account_checks(*h, failure, *ids));
    r
}

/// The requirements of loading a mint or a token account.
pub fn token_account(h: &AccountHeader, failure: Option<DecodeError>, ids: &ProgramIds) -> (r: Vec<Check>)
    ensures
        r@ == token_account_checks(*h, failure, *ids),
{
    let r = vec![
        make_check(!uninitialized(h, ids), FrameworkError::AccountNotInitialized),
        make_check(token_program_key(&h.owner, ids), FrameworkError::AccountOwnedByWrongProgram),
        make_decode_check(failure),
    ];
    assert(r@ =~= token_account_checks(*h, failure, *ids));
    r
}

/// The requirements of loading a wallet.
pub fn system_account(h: &AccountHeader, ids: &ProgramIds) -> (r: Vec<Check>)
    ensures
        r@ == system_account_checks(*h, *ids),
{
    let r = vec![make_check(h.owner.same_as(&ids.system), FrameworkError::AccountNotSystemOwned)];
    assert(r@ =~= system_account_checks(*h, *ids));
    r
}

/// The requirements of loading the token program.
pub fn token_program(h: &AccountHeader, ids: &ProgramIds) -> (r: Vec<Check>)
    ensures
        r@ == token_program_checks(*h, *ids),
{
    let r = vec![
        make_check(token_program_key(&h.key, ids), FrameworkError::InvalidProgramId),
        make_check(h.executable, FrameworkError::InvalidProgramExecutable),
    ];
    assert(r@ =~= token_program_checks(*h, *ids));
    r
}

/// The requirements of loading the System program.
pub fn system_program(h: &AccountHeader, ids: &ProgramIds) -> (r: Vec<Check>)
    ensures
        r@ == system_program_checks(*h, *ids),
{
    let r = vec![
        make_check(h.key.same_as(&ids.system), FrameworkError::InvalidProgramId),
        make_check(h.executable, FrameworkError::InvalidProgramExecutable),
    ];
    assert(r@ =~= system_program_checks(*h, *ids));
    r
}

} // verus!
