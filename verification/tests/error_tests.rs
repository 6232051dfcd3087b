use truenas_nss::{NssError, NssModule, NssOperation, NssReturnCode};

#[test]
fn test_nss_error_display() {
    let error = NssError::NssOperationFailed {
        errno: 2,
        operation: NssOperation::GetPwNam,
        return_code: NssReturnCode::NotFound,
        module: NssModule::Files,
    };

    let error_str = error.message();
    assert!(error_str.contains("GetPwNam"));
    assert!(error_str.contains("NotFound"));
    assert!(error_str.contains("Files"));
    assert!(error_str.contains("errno 2"));
}

#[test]
fn test_buffer_too_small_error() {
    let error = NssError::BufferTooSmall { needed: 2048 };
    assert_eq!(error.message(), "Buffer too small, need 2048 bytes");
}

#[test]
fn test_invalid_utf8_error() {
    let error = NssError::InvalidUtf8;
    assert_eq!(error.message(), "Invalid UTF-8 string");
}

#[test]
fn test_library_error() {
    let error = NssError::LibraryError("Failed to load libnss_files.so.2".to_string());
    assert_eq!(
        error.message(),
        "Library loading error: Failed to load libnss_files.so.2"
    );
}

#[test]
fn test_operation_failed_exact_text() {
    let error = NssError::NssOperationFailed {
        errno: 0,
        operation: NssOperation::SetGrEnt,
        return_code: NssReturnCode::TryAgain,
        module: NssModule::Winbind,
    };
    assert_eq!(
        error.message(),
        "NSS operation SetGrEnt failed with errno 0: TryAgain on module [Winbind]"
    );
}

#[test]
fn test_null_pointer_error() {
    let error = NssError::NullPointer;
    assert_eq!(error.message(), "Null pointer encountered");
}

#[test]
fn test_buffer_too_small_extreme_sizes() {
    let zero = NssError::BufferTooSmall { needed: 0 };
    assert_eq!(zero.message(), "Buffer too small, need 0 bytes");
    let huge = NssError::BufferTooSmall { needed: usize::MAX };
    assert_eq!(
        huge.message(),
        format!("Buffer too small, need {} bytes", usize::MAX)
    );
}
