use esp_thermostat::events::{DiffStatus, FanStatus, ModeStatus, RestStatus, StatusError};

#[test]
fn mode_status_from_number() {
    assert_eq!(ModeStatus::try_from(0), Ok(ModeStatus::Heat));
    assert_eq!(ModeStatus::try_from(1), Ok(ModeStatus::Cool));
    assert_eq!(ModeStatus::try_from(2), Ok(ModeStatus::Off));
    assert_eq!(ModeStatus::try_from(3), Err(StatusError::InvalidMode(3)));
    assert_eq!(ModeStatus::try_from(-1), Err(StatusError::InvalidMode(-1)));
}

#[test]
fn diff_status_from_number() {
    assert_eq!(DiffStatus::try_from(0), Ok(DiffStatus::Slow));
    assert_eq!(DiffStatus::try_from(1), Ok(DiffStatus::Normal));
    assert_eq!(DiffStatus::try_from(2), Ok(DiffStatus::Fast));
    assert_eq!(DiffStatus::try_from(3), Err(StatusError::InvalidDiff(3)));
    assert_eq!(
        DiffStatus::try_from(i32::MAX),
        Err(StatusError::InvalidDiff(i32::MAX))
    );
}

#[test]
fn rest_status_from_number() {
    assert_eq!(RestStatus::try_from(0), Ok(RestStatus::Short));
    assert_eq!(RestStatus::try_from(1), Ok(RestStatus::Medium));
    assert_eq!(RestStatus::try_from(2), Ok(RestStatus::Long));
    assert_eq!(RestStatus::try_from(3), Ok(RestStatus::Off));
    assert_eq!(RestStatus::try_from(4), Err(StatusError::InvalidRest(4)));
    assert_eq!(RestStatus::try_from(-7), Err(StatusError::InvalidRest(-7)));
}

#[test]
fn fan_status_from_number() {
    assert_eq!(FanStatus::try_from(0), Ok(FanStatus::Auto));
    assert_eq!(FanStatus::try_from(1), Ok(FanStatus::On));
    assert_eq!(FanStatus::try_from(2), Err(StatusError::InvalidFan(2)));
    assert_eq!(
        FanStatus::try_from(i32::MIN),
        Err(StatusError::InvalidFan(i32::MIN))
    );
}
