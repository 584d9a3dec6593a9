use oridion::errors::OridionError;

#[test]
fn refusals_explain_themselves() {
    assert_eq!(OridionError::InvalidTreasure.message(), "InvalidTreasure");
    assert_eq!(OridionError::InvalidPasscode.message(), "Invalid passcode");
    assert_eq!(OridionError::TooSoonToEmLand.message(), "Too soon to emergency land");
    assert_eq!(OridionError::UnauthorizedMode.message(), "Unauthorized mode");
    assert_eq!(OridionError::UniverseLocked.message(), "Universe is locked");
    assert_eq!(OridionError::InsufficientFee.message(), "Insufficient fee");
    assert_eq!(OridionError::TooManyPods.message(), "Too many pods!");
    assert_eq!(OridionError::PlanetStillLocked.message(), "Planet is still locked!");
    assert_eq!(
        OridionError::PlanetNotLocked.message(),
        "Planet must be locked in order to hop"
    );
    assert_eq!(OridionError::LockExpired.message(), "Planet lock has expired!");
    assert_eq!(
        OridionError::StarHopCalculationError.message(),
        "Star split calculations do not add up!"
    );
    assert_eq!(
        OridionError::ScatterSplitMathError.message(),
        "Scatter split math not adding up!"
    );
    assert_eq!(OridionError::TicketNotFound.message(), "Land ticket not found");
    assert_eq!(OridionError::LandBookFull.message(), "Land book is full");
    assert_eq!(OridionError::PodCloseError.message(), "Pod cannot be closed yet");
    assert_eq!(OridionError::ArithmeticOverflow.message(), "Arithmetic overflow");
}

#[test]
fn every_refusal_has_a_text_of_its_own() {
    let all = [
        OridionError::InvalidTreasure,
        OridionError::InvalidPasscode,
        OridionError::TooSoonToEmLand,
        OridionError::UnauthorizedMode,
        OridionError::UniverseLocked,
        OridionError::InsufficientFee,
        OridionError::TooManyPods,
        OridionError::PlanetNameTooLong,
        OridionError::PlanetDeleteHasFundsError,
        OridionError::HopErrorToAndFromAreSame,
        OridionError::InsufficientFunds,
        OridionError::HopErrorStarsMustBeUnique,
        OridionError::AlreadyLanded,
        OridionError::PlanetNotEnoughFundsError,
        OridionError::PlanetStillLocked,
        OridionError::PlanetNotLocked,
        OridionError::NotAuthorizedToHop,
        OridionError::LockExpired,
        OridionError::StarHopCalculationError,
        OridionError::InTransit,
        OridionError::NotInTransit,
        OridionError::InvalidDepositAmount,
        OridionError::InvalidLandingTimestamp,
        OridionError::ExistingPodActive,
        OridionError::InvalidDestination,
        OridionError::InvalidDelay,
        OridionError::InvalidMode,
        OridionError::InvalidScatterMeta,
        OridionError::ScatterSplitMathError,
        OridionError::ScatterTotalToPodMismatch,
        OridionError::UnusualMathError,
        OridionError::InsufficientTreasuryBalance,
        OridionError::InvalidStarMetaPda,
        OridionError::PdaAlreadyInitialized,
        OridionError::TicketNotFound,
        OridionError::LandBookFull,
        OridionError::PodCloseError,
        OridionError::ArithmeticOverflow,
    ];
    for (i, a) in all.iter().enumerate() {
        assert!(!a.message().is_empty());
        for b in all.iter().skip(i + 1) {
            assert_ne!(a, b);
            assert_ne!(a.message(), b.message());
        }
    }
}
