use wasapi_host::error::{
    error_from_parts, windows_err_to_cpal_err, windows_err_to_cpal_err_message,
    BackendSpecificError, BuildStreamError, DefaultStreamConfigError, DeviceNameError,
    DevicesError, StreamError, SupportedStreamConfigsError, AUDCLNT_E_DEVICE_INVALIDATED, S_FALSE,
};
use windows_core::{Error, HRESULT};

const ACCESS_DENIED: u32 = 0x80070005;

fn error(code: u32) -> Error {
    Error::from_hresult(HRESULT(code as i32))
}

fn backend(description: &str) -> BackendSpecificError {
    BackendSpecificError {
        description: description.to_string(),
    }
}

#[test]
fn constants_have_the_numbers_of_windows() {
    assert_eq!(AUDCLNT_E_DEVICE_INVALIDATED as u32, 0x88890004);
    assert_eq!(S_FALSE, 1);
}

#[test]
fn invalidated_device_is_not_available() {
    let code = AUDCLNT_E_DEVICE_INVALIDATED;
    let build: BuildStreamError = error_from_parts(code, "opening: ", "gone");
    assert_eq!(build, BuildStreamError::DeviceNotAvailable);
    let configs: SupportedStreamConfigsError = error_from_parts(code, "", "gone");
    assert_eq!(configs, SupportedStreamConfigsError::DeviceNotAvailable);
    let default: DefaultStreamConfigError = error_from_parts(code, "", "gone");
    assert_eq!(default, DefaultStreamConfigError::DeviceNotAvailable);
    let stream: StreamError = error_from_parts(code, "", "gone");
    assert_eq!(stream, StreamError::DeviceNotAvailable);
}

#[test]
fn other_codes_are_described() {
    let build: BuildStreamError = error_from_parts(-1, "opening: ", "no way");
    assert_eq!(
        build,
        BuildStreamError::BackendSpecific {
            err: backend("opening: no way")
        }
    );
    let stream: StreamError = error_from_parts(0, "", "fine");
    assert_eq!(
        stream,
        StreamError::BackendSpecific {
            err: backend("fine")
        }
    );
}

#[test]
fn code_is_read_out_of_the_error() {
    let gone: SupportedStreamConfigsError = windows_err_to_cpal_err(error(0x88890004));
    assert_eq!(gone, SupportedStreamConfigsError::DeviceNotAvailable);
    let other: SupportedStreamConfigsError = windows_err_to_cpal_err(error(ACCESS_DENIED));
    match other {
        SupportedStreamConfigsError::BackendSpecific { err } => {
            assert_eq!(err.description, format!("{}", error(ACCESS_DENIED)));
            assert!(
                err.description == "0x80070005" || err.description.ends_with(" (0x80070005)")
            );
        }
        _ => panic!("a described error was expected"),
    }
}

#[test]
fn letters_of_a_code_are_upper_case() {
    let err: StreamError = windows_err_to_cpal_err(error(0x8ABCDEF9));
    match err {
        StreamError::BackendSpecific { err } => {
            assert!(err.description.contains("0x8ABCDEF9"));
        }
        _ => panic!("a described error was expected"),
    }
}

#[test]
fn message_comes_before_the_text() {
    let err: BuildStreamError = windows_err_to_cpal_err_message(error(ACCESS_DENIED), "failed: ");
    assert_eq!(
        err,
        BuildStreamError::BackendSpecific {
            err: backend(&format!("failed: {}", error(ACCESS_DENIED)))
        }
    );
    let gone: BuildStreamError = windows_err_to_cpal_err_message(error(0x88890004), "failed: ");
    assert_eq!(gone, BuildStreamError::DeviceNotAvailable);
}

#[test]
fn system_message_describes_a_windows_error() {
    let err = BackendSpecificError::from(error(ACCESS_DENIED));
    let expected = format!("{}", std::io::Error::from(error(ACCESS_DENIED)));
    assert_eq!(err, backend(&expected));
    assert!(!err.description.is_empty());
}

#[test]
fn descriptions_are_wrapped() {
    assert_eq!(
        DevicesError::from(backend("x")),
        DevicesError::BackendSpecific { err: backend("x") }
    );
    assert_eq!(
        DeviceNameError::from(backend("x")),
        DeviceNameError::BackendSpecific { err: backend("x") }
    );
    assert_eq!(
        DefaultStreamConfigError::from(backend("x")),
        DefaultStreamConfigError::BackendSpecific { err: backend("x") }
    );
}
