use ctr_camera::error::AppError;

#[test]
fn messages() {
    assert_eq!(AppError::Unknown.message(), "Unknown error");
    assert_eq!(AppError::Ctru.message(), "libctru error");
    assert_eq!(AppError::Swkbd.message(), "Software keyboard error");
    assert_eq!(AppError::Io.message(), "I/O error");
}

#[test]
fn errors_compare_by_variant() {
    assert_eq!(AppError::Io, AppError::Io);
    assert_ne!(AppError::Io, AppError::Swkbd);
    assert_ne!(AppError::Unknown, AppError::Ctru);
}
