use optee_params::error::{Error, ErrorKind};

#[test]
fn each_kind_has_its_status_code() {
    assert_eq!(ErrorKind::BadParameters.raw_code(), 0xFFFF_0006);
    assert_eq!(ErrorKind::TargetDead.raw_code(), 0xFFFF_3024);
}

#[test]
fn an_error_carries_its_kind() {
    let error = Error::new(ErrorKind::BadParameters);
    assert_eq!(error.kind(), ErrorKind::BadParameters);
    assert_eq!(error.raw_code(), 0xFFFF_0006);
    let error = Error::from(ErrorKind::TargetDead);
    assert_eq!(error.kind(), ErrorKind::TargetDead);
    assert_eq!(error.raw_code(), 0xFFFF_3024);
    assert_ne!(Error::new(ErrorKind::TargetDead), Error::new(ErrorKind::BadParameters));
}
