use vstd::prelude::*;

verus! {

/// Every way an operation of the disclosure program can fail.
#[derive(Clone, Copy, Debug, PartialEq, Eq, Structural)]
pub enum ProofOfHackError {
    InvalidProtocolName,
    InvalidSeverity,
    GracePeriodTooShort,
    EncryptedProofTooLarge,
    InvalidStatus,
    GracePeriodNotElapsed,
    ProofHashMismatch,
    UnauthorizedProtocolAction,
    UnauthorizedHackerAction,
    ProtocolMismatch,
    AlreadyClaimed,
    PlaintextProofTooLarge,
    GracePeriodTooLong,
    GracePeriodOverflow,
    VaultNotActive,
    InsufficientVaultFunds,
    BountyAlreadyClaimed,
    DisclosureNotResolved,
    BountyOverflow,
    UnauthorizedVaultAction,
    GracePeriodBelowProtocolMinimum,
    InvalidMinGracePeriod,
    NotUpgradeAuthority,
    InvalidProgramData,
    ProtocolConfigRequired,
    InvalidProtocolConfig,
    VaultAlreadyInactive,
    InvalidNewAuthority,
    InvalidResolutionType,
    InvalidTargetProgram,
    EncryptedProofTooSmall,
    VaultStillActive,
    NoPendingTransfer,
}

/// The broad family an error belongs to.
#[derive(Clone, Copy, Debug, PartialEq, Eq, Structural)]
pub enum ErrorKind {
    Validation,
    Authorization,
    State,
    Integrity,
    Escrow,
    NotFound,
    Overflow,
}

impl ProofOfHackError {
    pub open spec fn spec_kind(self) -> ErrorKind {
        match self {
            ProofOfHackError::InvalidProtocolName
            | ProofOfHackError::InvalidSeverity
            | ProofOfHackError::GracePeriodTooShort
            | ProofOfHackError::EncryptedProofTooLarge
            | ProofOfHackError::PlaintextProofTooLarge
            | ProofOfHackError::GracePeriodTooLong
            | ProofOfHackError::GracePeriodBelowProtocolMinimum
            | ProofOfHackError::InvalidMinGracePeriod
            | ProofOfHackError::InvalidProgramData
            | ProofOfHackError::InvalidProtocolConfig
            | ProofOfHackError::InvalidNewAuthority
            | ProofOfHackError::InvalidResolutionType
            | ProofOfHackError::InvalidTargetProgram
            | ProofOfHackError::EncryptedProofTooSmall
            | ProofOfHackError::ProtocolMismatch => ErrorKind::Validation,
            ProofOfHackError::UnauthorizedProtocolAction
            | ProofOfHackError::UnauthorizedHackerAction
            | ProofOfHackError::UnauthorizedVaultAction
            | ProofOfHackError::NotUpgradeAuthority => ErrorKind::Authorization,
            ProofOfHackError::InvalidStatus
            | ProofOfHackError::GracePeriodNotElapsed
            | ProofOfHackError::AlreadyClaimed
            | ProofOfHackError::DisclosureNotResolved => ErrorKind::State,
            ProofOfHackError::ProofHashMismatch => ErrorKind::Integrity,
            ProofOfHackError::VaultNotActive
            | ProofOfHackError::InsufficientVaultFunds
            | ProofOfHackError::BountyAlreadyClaimed
            | ProofOfHackError::VaultAlreadyInactive
            | ProofOfHackError::VaultStillActive => ErrorKind::Escrow,
            ProofOfHackError::ProtocolConfigRequired
            | ProofOfHackError::NoPendingTransfer => ErrorKind::NotFound,
            ProofOfHackError::GracePeriodOverflow
            | ProofOfHackError::BountyOverflow => ErrorKind::Overflow,
        }
    }

    /// The family this error belongs to.
    pub fn kind(self) -> (k: ErrorKind)
        ensures
            k == self.spec_kind(),
    {
        match self {
            ProofOfHackError::InvalidProtocolName
            | ProofOfHackError::InvalidSeverity
            | ProofOfHackError::GracePeriodTooShort
            | ProofOfHackError::EncryptedProofTooLarge
            | ProofOfHackError::PlaintextProofTooLarge
            | ProofOfHackError::GracePeriodTooLong
            | ProofOfHackError::GracePeriodBelowProtocolMinimum
            | ProofOfHackError::InvalidMinGracePeriod
            | ProofOfHackError::InvalidProgramData
            | ProofOfHackError::InvalidProtocolConfig
            | ProofOfHackError::InvalidNewAuthority
            | ProofOfHackError::InvalidResolutionType
            | ProofOfHackError::InvalidTargetProgram
            | ProofOfHackError::EncryptedProofTooSmall
            | ProofOfHackError::ProtocolMismatch => ErrorKind::Validation,
            ProofOfHackError::UnauthorizedProtocolAction
            | ProofOfHackError::UnauthorizedHackerAction
            | ProofOfHackError::UnauthorizedVaultAction
            | ProofOfHackError::NotUpgradeAuthority => ErrorKind::Authorization,
            ProofOfHackError::InvalidStatus
            | ProofOfHackError::GracePeriodNotElapsed
            | ProofOfHackError::AlreadyClaimed
            | ProofOfHackError::DisclosureNotResolved => ErrorKind::State,
            ProofOfHackError::ProofHashMismatch => ErrorKind::Integrity,
            ProofOfHackError::VaultNotActive
            | ProofOfHackError::InsufficientVaultFunds
            | ProofOfHackError::BountyAlreadyClaimed
            | ProofOfHackError::VaultAlreadyInactive
            | ProofOfHackError::VaultStillActive => ErrorKind::Escrow,
            ProofOfHackError::ProtocolConfigRequired
            | ProofOfHackError::NoPendingTransfer => ErrorKind::NotFound,
            ProofOfHackError::GracePeriodOverflow
            | ProofOfHackError::BountyOverflow => ErrorKind::Overflow,
        }
    }
}

} // verus!
