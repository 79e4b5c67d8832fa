//! The failure taxonomy of the engine. Every operation reports its reason for
//! refusing a call through one of these variants; no operation partially
//! applies on failure.

use vstd::prelude::*;

verus! {

/// Why an operation was refused.
#[derive(Clone, Copy, Debug, PartialEq, Eq, Structural)]
pub enum ErrorCode {
    /// The payment for an access pass is outside the accepted range.
    InvalidBurnAmount,
    /// The caller's current access pass has not expired yet.
    AccessStillActive,
    /// A proposed or requested access cost is outside the accepted range.
    InvalidAccessCost,
    /// A fee mode other than 0 (user pays) or 1 (sponsor pays) was given.
    InvalidFeeMode,
    /// The sponsored entry point was used while the engine is in user-pays mode.
    WrongFeeMode,
    /// The caller holds no active access pass.
    NoActiveAccess,
    /// The proposer's balance is below the proposal-creation minimum.
    InsufficientWznForProposal,
    /// The voter's balance is below the voting minimum.
    InsufficientWznForVoting,
    /// The proposal type is not one of the four defined kinds.
    InvalidProposalType,
    /// The voting window of the proposal has closed.
    VotingClosed,
    /// The voting window of the proposal is still open.
    VotingStillOpen,
    /// The proposal has already been executed.
    ProposalAlreadyExecuted,
    /// The proposal was cancelled.
    ProposalCancelled,
    /// The caller has already voted on this proposal.
    AlreadyVoted,
    /// Fewer unique voters participated than the quorum requires.
    QuorumNotMet,
    /// The share of yes voting power is below the required percentage.
    InsufficientYesVotes,
    /// The execution window of the proposal has passed.
    ExecutionDeadlinePassed,
    /// The caller may not cancel this record.
    UnauthorizedCancel,
    /// The proposal was already cancelled.
    ProposalAlreadyCancelled,
    /// The vault's time lock has not expired yet.
    TimeLockNotExpired,
    /// The cool-down since the last emergency release is still running.
    CooldownActive,
    /// The requested release percentage is outside the accepted range.
    InvalidUnlockPercentage,
    /// The initiator's or signer's balance is below the emergency minimum.
    InsufficientWznForEmergency,
    /// The signature-collection window of the request has closed.
    SignaturePeriodClosed,
    /// The emergency release has already been executed.
    UnlockAlreadyExecuted,
    /// The emergency release was cancelled.
    UnlockCancelled,
    /// The caller has already signed this emergency release.
    AlreadySigned,
    /// Fewer signatures were collected than the release requires.
    InsufficientSignatures,
    /// The emergency release was already cancelled.
    UnlockAlreadyCancelled,
    /// The recipient and amount lists have different lengths.
    MismatchedRecipientsAmounts,
    /// The distribution names more recipients than one batch may hold.
    TooManyRecipients,
    /// The vault holds less than the distribution would pay out.
    InsufficientVaultBalance,
    /// The prize distribution has already been executed.
    DistributionAlreadyExecuted,
    /// The prize distribution was cancelled.
    DistributionCancelled,
    /// The caller is not the administrator this operation requires.
    Unauthorized,
    /// No record exists under the given key.
    RecordNotFound,
    /// A record already exists under the key a new one would take.
    RecordAlreadyExists,
    /// A counter or tally cannot grow without leaving its integer type.
    ArithmeticOverflow,
}

} // verus!
