use vstd::prelude::*;

verus! {

/// The reason an operation rejected its inputs.
///
/// Two codes are overloaded: a below-minimum donation is reported as
/// `InvalidGoalAmount` (not `InvalidDonationAmount`), and a withdrawal
/// that exceeds the tracked balance is reported as
/// `CampaignGoalActualized`. Callers distinguish the conditions by the
/// operation they invoked, not by the code alone.
#[derive(Clone, Copy, Debug, PartialEq, Eq, Structural)]
pub enum ErrorCode {
    /// The singleton configuration record has already been set up.
    AlreadyInitialized,
    /// A campaign title longer than the stored maximum.
    TitleTooLong,
    /// A campaign description longer than the stored maximum.
    DescriptionTooLong,
    /// A campaign image URL longer than the stored maximum.
    ImageUrlTooLong,
    /// A goal — or a donation, which reuses this code — below its minimum
    /// amount.
    InvalidGoalAmount,
    /// The caller's identity does not match the required one.
    Unauthorized,
    /// The supplied campaign identifier does not match the record.
    CampaignNotFound,
    /// The campaign has been soft-deleted.
    InactiveCampaign,
    /// A donation below the minimum amount. Never raised: a below-minimum
    /// donation is reported as `InvalidGoalAmount` instead.
    InvalidDonationAmount,
    /// The campaign's goal is already reached (also reused for a
    /// withdrawal exceeding the tracked balance).
    CampaignGoalActualized,
    /// A withdrawal below the minimum amount.
    InvalidWithdrawalAmount,
    /// A withdrawal exceeding the record's spendable surplus of actually
    /// held funds over its custodial reserve.
    InsufficientFund,
    /// The supplied fee recipient is not the configured platform address.
    InvalidPlatformAddress,
    /// A platform fee percentage outside the allowed band.
    InvalidPlatformFee,
}

/// How a donation can end short of success: rejected by a validation check,
/// or aborted because the host reported that the native transfer of the
/// donated funds did not go through.
#[derive(Clone, Copy, Debug, PartialEq, Eq, Structural)]
pub enum OpError {
    /// A validation check failed with the given code.
    Rejected(ErrorCode),
    /// Validation passed but the host's native transfer failed.
    TransferFailed,
}

} // verus!
