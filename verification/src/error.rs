use vstd::prelude::*;

verus! {

/// The escrow program's own errors.
#[derive(Clone, Copy, Debug, PartialEq, Eq, Structural)]
pub enum EscrowError {
    /// Amount must be greater than zero.
    AmountMustBePositive,
    /// Receiver must be different from sender.
    SenderEqualsReceiver,
    /// Only the original sender can manage this deal.
    UnauthorizedSender,
    /// Receiver does not match the deal.
    InvalidReceiver,
    /// Mint does not match the deal.
    InvalidMint,
    /// Only Token-2022 is supported.
    InvalidTokenProgram,
    /// This operation is not allowed in the current deal status.
    InvalidStatus,
    /// Only mints without extensions and freeze authority are supported.
    UnsupportedMint,
    /// Vault balance is smaller than the funded amount.
    InvalidVaultBalance,
}

/// The offset of the first custom error code of a program.
pub const CUSTOM_ERROR_OFFSET: u32 = 6000;

impl EscrowError {
    /// The error's position in the declaration.
    pub open spec fn index_spec(self) -> u32 {
        match self {
            EscrowError::AmountMustBePositive => 0,
            EscrowError::SenderEqualsReceiver => 1,
            EscrowError::UnauthorizedSender => 2,
            EscrowError::InvalidReceiver => 3,
            EscrowError::InvalidMint => 4,
            EscrowError::InvalidTokenProgram => 5,
            EscrowError::InvalidStatus => 6,
            EscrowError::UnsupportedMint => 7,
            EscrowError::InvalidVaultBalance => 8,
        }
    }

    /// The numeric error code a client sees: the custom offset plus the
    /// error's position in the declaration.
    pub fn code(&self) -> (c: u32)
        ensures
            c == CUSTOM_ERROR_OFFSET + self.index_spec(),
    {
        let i: u32 = match self {
            EscrowError::AmountMustBePositive => 0,
            EscrowError::SenderEqualsReceiver => 1,
            EscrowError::UnauthorizedSender => 2,
            EscrowError::InvalidReceiver => 3,
            EscrowError::InvalidMint => 4,
            EscrowError::InvalidTokenProgram => 5,
            EscrowError::InvalidStatus => 6,
            EscrowError::UnsupportedMint => 7,
            EscrowError::InvalidVaultBalance => 8,
        };
        CUSTOM_ERROR_OFFSET + i
    }
}

impl EscrowError {
    /// The message that explains the error.
    pub open spec fn message_spec(self) -> Seq<char> {
        match self {
            EscrowError::AmountMustBePositive => "Amount must be greater than zero"@,
            EscrowError::SenderEqualsReceiver => "Receiver must be different from sender"@,
            EscrowError::UnauthorizedSender => "Only the original sender can manage this deal"@,
            EscrowError::InvalidReceiver => "Receiver does not match the deal"@,
            EscrowError::InvalidMint => "Mint does not match the deal"@,
            EscrowError::InvalidTokenProgram => "Only Token-2022 is supported"@,
            EscrowError::InvalidStatus => "This operation is not allowed in the current deal status"@,
            EscrowError::UnsupportedMint => "Only mints without extensions and freeze authority are supported"@,
            EscrowError::InvalidVaultBalance => "Vault balance is smaller than the funded amount"@,
        }
    }

    /// The message that explains the error.
    pub fn message(&self) -> (m: &'static str)
        ensures
            m@ == self.message_spec(),
    {
        match self {
            EscrowError::AmountMustBePositive => "Amount must be greater than zero",
            EscrowError::SenderEqualsReceiver => "Receiver must be different from sender",
            EscrowError::UnauthorizedSender => "Only the original sender can manage this deal",
            EscrowError::InvalidReceiver => "Receiver does not match the deal",
            EscrowError::InvalidMint => "Mint does not match the deal",
            EscrowError::InvalidTokenProgram => "Only Token-2022 is supported",
            EscrowError::InvalidStatus => "This operation is not allowed in the current deal status",
            EscrowError::UnsupportedMint => "Only mints without extensions and freeze authority are supported",
            EscrowError::InvalidVaultBalance => "Vault balance is smaller than the funded amount",
        }
    }
}

/// Errors that the account-checking framework raises on behalf of the
/// program while it loads and checks the accounts of an instruction.
#[derive(Clone, Copy, Debug, PartialEq, Eq, Structural)]
pub enum FrameworkError {
    /// A `mut` account was passed read-only.
    ConstraintMut,
    /// An account is not the program address derived from its seeds.
    ConstraintSeeds,
    /// An account that is closed into a destination is that destination.
    ConstraintClose,
    /// One account is passed in two writable places.
    ConstraintDuplicateMutableAccount,
    /// An associated token account is not at its derived address.
    ConstraintAssociated,
    /// A token account has the wrong mint.
    ConstraintTokenMint,
    /// A token account has the wrong owner (authority).
    ConstraintTokenOwner,
    /// A token account is not owned by the given token program.
    ConstraintTokenTokenProgram,
    /// A mint is not owned by the given token program.
    ConstraintMintTokenProgram,
    /// An associated token account is not owned by the given token program.
    ConstraintAssociatedTokenTokenProgram,
    /// An account's data is shorter than a type discriminator.
    AccountDiscriminatorNotFound,
    /// An account's data starts with another type's discriminator.
    AccountDiscriminatorMismatch,
    /// An account's data could not be decoded as its type.
    AccountDidNotDeserialize,
    /// An account is owned by a program other than the one its type requires.
    AccountOwnedByWrongProgram,
    /// A program account is not the expected program.
    InvalidProgramId,
    /// A program account is not executable.
    InvalidProgramExecutable,
    /// An account that must sign did not.
    AccountNotSigner,
    /// An account that must belong to the System program does not.
    AccountNotSystemOwned,
    /// An account holds no data: it was never created or has been closed.
    AccountNotInitialized,
    /// The payer of a new program account is that account.
    TryingToInitPayerAsProgramAccount,
}

impl FrameworkError {
    /// The numeric error code of the framework error.
    pub open spec fn code_spec(self) -> u32 {
        match self {
            FrameworkError::ConstraintMut => 2000,
            FrameworkError::ConstraintSeeds => 2006,
            FrameworkError::ConstraintAssociated => 2009,
            FrameworkError::ConstraintClose => 2011,
            FrameworkError::ConstraintTokenMint => 2014,
            FrameworkError::ConstraintTokenOwner => 2015,
            FrameworkError::ConstraintTokenTokenProgram => 2021,
            FrameworkError::ConstraintMintTokenProgram => 2022,
            FrameworkError::ConstraintAssociatedTokenTokenProgram => 2023,
            FrameworkError::ConstraintDuplicateMutableAccount => 2040,
            FrameworkError::AccountDiscriminatorNotFound => 3001,
            FrameworkError::AccountDiscriminatorMismatch => 3002,
            FrameworkError::AccountDidNotDeserialize => 3003,
            FrameworkError::AccountOwnedByWrongProgram => 3007,
            FrameworkError::InvalidProgramId => 3008,
            FrameworkError::InvalidProgramExecutable => 3009,
            FrameworkError::AccountNotSigner => 3010,
            FrameworkError::AccountNotSystemOwned => 3011,
            FrameworkError::AccountNotInitialized => 3012,
            FrameworkError::TryingToInitPayerAsProgramAccount => 4101,
        }
    }

    /// The numeric error code of the framework error.
    pub fn code(&self) -> (c: u32)
        ensures
            c == self.code_spec(),
    {
        match self {
            FrameworkError::ConstraintMut => 2000,
            FrameworkError::ConstraintSeeds => 2006,
            FrameworkError::ConstraintAssociated => 2009,
            FrameworkError::ConstraintClose => 2011,
            FrameworkError::ConstraintTokenMint => 2014,
            FrameworkError::ConstraintTokenOwner => 2015,
            FrameworkError::ConstraintTokenTokenProgram => 2021,
            FrameworkError::ConstraintMintTokenProgram => 2022,
            FrameworkError::ConstraintAssociatedTokenTokenProgram => 2023,
            FrameworkError::ConstraintDuplicateMutableAccount => 2040,
            FrameworkError::AccountDiscriminatorNotFound => 3001,
            FrameworkError::AccountDiscriminatorMismatch => 3002,
            FrameworkError::AccountDidNotDeserialize => 3003,
            FrameworkError::AccountOwnedByWrongProgram => 3007,
            FrameworkError::InvalidProgramId => 3008,
            FrameworkError::InvalidProgramExecutable => 3009,
            FrameworkError::AccountNotSigner => 3010,
            FrameworkError::AccountNotSystemOwned => 3011,
            FrameworkError::AccountNotInitialized => 3012,
            FrameworkError::TryingToInitPayerAsProgramAccount => 4101,
        }
    }
}

/// Errors of the runtime's own list that a token program's decoder gives
/// when an account's data is not a token account or mint.
#[derive(Clone, Copy, Debug, PartialEq, Eq, Structural)]
pub enum BuiltinError {
    /// The data is too short, of the wrong kind, or malformed.
    InvalidAccountData,
    /// The data is a mint or token account that was never initialized.
    UninitializedAccount,
}

/// The shift of a built-in error's number in the value the runtime reports.
pub const BUILTIN_SHIFT: u64 = 0x1_0000_0000;

impl BuiltinError {
    /// The error's number in the runtime's list.
    pub open spec fn number_spec(self) -> u64 {
        match self {
            BuiltinError::InvalidAccountData => 4,
            BuiltinError::UninitializedAccount => 10,
        }
    }

    /// The value the runtime reports: the error's number shifted past the
    /// 32 bits of custom codes.
    pub fn code(&self) -> (c: u64)
        ensures
            c == self.number_spec() * BUILTIN_SHIFT,
    {
        match self {
            BuiltinError::InvalidAccountData => 4 * BUILTIN_SHIFT,
            BuiltinError::UninitializedAccount => 10 * BUILTIN_SHIFT,
        }
    }
}

/// Why an instruction was rejected.
#[derive(Clone, Copy, Debug, PartialEq, Eq, Structural)]
pub enum ProgramError {
    /// One of the escrow program's own errors.
    Escrow(EscrowError),
    /// An error of the account-checking framework.
    Framework(FrameworkError),
    /// An error of the runtime's own list.
    Builtin(BuiltinError),
}

impl ProgramError {
    /// The value the runtime reports for the rejection: the custom code, or
    /// a built-in error's shifted number.
    pub open spec fn code_spec(self) -> u64 {
        match self {
            ProgramError::Escrow(e) => (CUSTOM_ERROR_OFFSET + e.index_spec()) as u64,
            ProgramError::Framework(e) => e.code_spec() as u64,
            ProgramError::Builtin(e) => (e.number_spec() * BUILTIN_SHIFT) as u64,
        }
    }

    /// The value the runtime reports for the rejection.
    pub fn code(&self) -> (c: u64)
        ensures
            c == self.code_spec(),
    {
        match self {
            ProgramError::Escrow(e) => e.code() as u64,
            ProgramError::Framework(e) => e.code() as u64,
            ProgramError::Builtin(e) => e.code(),
        }
    }
}

} // verus!
