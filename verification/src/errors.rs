//! The refusals.

use vstd::prelude::*;

verus! {

/// Every way an operation can be rejected. A rejected operation changes nothing.
#[derive(Clone, Copy, Debug, PartialEq, Eq, Structural)]
pub enum OridionError {
    InvalidTreasure,
    InvalidPasscode,
    TooSoonToEmLand,
    UnauthorizedMode,
    UniverseLocked,
    InsufficientFee,
    TooManyPods,
    PlanetNameTooLong,
    PlanetDeleteHasFundsError,
    HopErrorToAndFromAreSame,
    InsufficientFunds,
    HopErrorStarsMustBeUnique,
    AlreadyLanded,
    PlanetNotEnoughFundsError,
    PlanetStillLocked,
    PlanetNotLocked,
    NotAuthorizedToHop,
    LockExpired,
    StarHopCalculationError,
    InTransit,
    NotInTransit,
    InvalidDepositAmount,
    InvalidLandingTimestamp,
    ExistingPodActive,
    InvalidDestination,
    InvalidDelay,
    InvalidMode,
    InvalidScatterMeta,
    ScatterSplitMathError,
    ScatterTotalToPodMismatch,
    UnusualMathError,
    InsufficientTreasuryBalance,
    InvalidStarMetaPda,
    PdaAlreadyInitialized,
    TicketNotFound,
    LandBookFull,
    /// The pod is not ready to be closed: it is not due to land, or it is in transit.
    PodCloseError,
    /// A balance or counter would leave the range of its integer type.
    ArithmeticOverflow,
}

impl OridionError {
    /// The text that explains the refusal.
    pub open spec fn message_spec(self) -> Seq<char> {
        match self {
            OridionError::InvalidTreasure => "InvalidTreasure"@,
            OridionError::InvalidPasscode => "Invalid passcode"@,
            OridionError::TooSoonToEmLand => "Too soon to emergency land"@,
            OridionError::UnauthorizedMode => "Unauthorized mode"@,
            OridionError::UniverseLocked => "Universe is locked"@,
            OridionError::InsufficientFee => "Insufficient fee"@,
            OridionError::TooManyPods => "Too many pods!"@,
            OridionError::PlanetNameTooLong => "Planet name too long"@,
            OridionError::PlanetDeleteHasFundsError => "Planet cannot be deleted. Still has funds"@,
            OridionError::HopErrorToAndFromAreSame => "To and from cannot be the same"@,
            OridionError::InsufficientFunds => "Insufficient funds for hop"@,
            OridionError::HopErrorStarsMustBeUnique => "Stars IDs must be unique"@,
            OridionError::AlreadyLanded => "Pod lamports have already landed!"@,
            OridionError::PlanetNotEnoughFundsError => "Planet does not have enough lamports to cover transaction!"@,
            OridionError::PlanetStillLocked => "Planet is still locked!"@,
            OridionError::PlanetNotLocked => "Planet must be locked in order to hop"@,
            OridionError::NotAuthorizedToHop => "Pod not authorized to hop from this planet"@,
            OridionError::LockExpired => "Planet lock has expired!"@,
            OridionError::StarHopCalculationError => "Star split calculations do not add up!"@,
            OridionError::InTransit => "Pod is in transit. Cannot start if already in transit!"@,
            OridionError::NotInTransit => "Pod is not in transit. Cannot end if not started!"@,
            OridionError::InvalidDepositAmount => "Pod amount must be greater than 0!"@,
            OridionError::InvalidLandingTimestamp => "Landing timestamp must be in the future!"@,
            OridionError::ExistingPodActive => "Pod is active!"@,
            OridionError::InvalidDestination => "Invalid destination address"@,
            OridionError::InvalidDelay => "Invalid delay amount passed"@,
            OridionError::InvalidMode => "Invalid mode passed"@,
            OridionError::InvalidScatterMeta => "Invalid Scatter meta"@,
            OridionError::ScatterSplitMathError => "Scatter split math not adding up!"@,
            OridionError::ScatterTotalToPodMismatch => "Scatter total to pod amount mismatch!"@,
            OridionError::UnusualMathError => "Unusual math error"@,
            OridionError::InsufficientTreasuryBalance => "Insufficient treasury balance for withdrawal"@,
            OridionError::InvalidStarMetaPda => "Invalid star meta account passed"@,
            OridionError::PdaAlreadyInitialized => "PDA already initialized"@,
            OridionError::TicketNotFound => "Land ticket not found"@,
            OridionError::LandBookFull => "Land book is full"@,
            OridionError::PodCloseError => "Pod cannot be closed yet"@,
            OridionError::ArithmeticOverflow => "Arithmetic overflow"@,
        }
    }

    /// The text that explains the refusal.
    pub fn message(&self) -> (text: &'static str)
        ensures
            text@ == self.message_spec(),
    {
        match self {
            OridionError::InvalidTreasure => "InvalidTreasure",
            OridionError::InvalidPasscode => "Invalid passcode",
            OridionError::TooSoonToEmLand => "Too soon to emergency land",
            OridionError::UnauthorizedMode => "Unauthorized mode",
            OridionError::UniverseLocked => "Universe is locked",
            OridionError::InsufficientFee => "Insufficient fee",
            OridionError::TooManyPods => "Too many pods!",
            OridionError::PlanetNameTooLong => "Planet name too long",
            OridionError::PlanetDeleteHasFundsError => "Planet cannot be deleted. Still has funds",
            OridionError::HopErrorToAndFromAreSame => "To and from cannot be the same",
            OridionError::InsufficientFunds => "Insufficient funds for hop",
            OridionError::HopErrorStarsMustBeUnique => "Stars IDs must be unique",
            OridionError::AlreadyLanded => "Pod lamports have already landed!",
            OridionError::PlanetNotEnoughFundsError => "Planet does not have enough lamports to cover transaction!",
            OridionError::PlanetStillLocked => "Planet is still locked!",
            OridionError::PlanetNotLocked => "Planet must be locked in order to hop",
            OridionError::NotAuthorizedToHop => "Pod not authorized to hop from this planet",
            OridionError::LockExpired => "Planet lock has expired!",
            OridionError::StarHopCalculationError => "Star split calculations do not add up!",
            OridionError::InTransit => "Pod is in transit. Cannot start if already in transit!",
            OridionError::NotInTransit => "Pod is not in transit. Cannot end if not started!",
            OridionError::InvalidDepositAmount => "Pod amount must be greater than 0!",
            OridionError::InvalidLandingTimestamp => "Landing timestamp must be in the future!",
            OridionError::ExistingPodActive => "Pod is active!",
            OridionError::InvalidDestination => "Invalid destination address",
            OridionError::InvalidDelay => "Invalid delay amount passed",
            OridionError::InvalidMode => "Invalid mode passed",
            OridionError::InvalidScatterMeta => "Invalid Scatter meta",
            OridionError::ScatterSplitMathError => "Scatter split math not adding up!",
            OridionError::ScatterTotalToPodMismatch => "Scatter total to pod amount mismatch!",
            OridionError::UnusualMathError => "Unusual math error",
            OridionError::InsufficientTreasuryBalance => "Insufficient treasury balance for withdrawal",
            OridionError::InvalidStarMetaPda => "Invalid star meta account passed",
            OridionError::PdaAlreadyInitialized => "PDA already initialized",
            OridionError::TicketNotFound => "Land ticket not found",
            OridionError::LandBookFull => "Land book is full",
            OridionError::PodCloseError => "Pod cannot be closed yet",
            OridionError::ArithmeticOverflow => "Arithmetic overflow",
        }
    }
}

} // verus!
