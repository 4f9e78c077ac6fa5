//! Laws on errors.
use crate::error::{
    error_code, error_from_parts, is_display_of, shows_code, windows_err_to_cpal_err,
    windows_err_to_cpal_err_message, BackendSpecificError, BuildStreamError,
    DefaultStreamConfigError, DeviceNameError, DevicesError, ErrDeviceNotAvailable, StreamError,
    SupportedStreamConfigsError,
};
use vstd::prelude::*;

verus! {

/// A failed call turns into a `BuildStreamError`. The device is gone exactly
/// where Windows gives the number 0x88890004, and any other number is described by the
/// message with the text behind it.
pub proof fn lemma_build_stream_error_of_a_code(
    code: i32,
    message: &str,
    text: &str,
    r: BuildStreamError,
)
    requires
        call_ensures(error_from_parts::<BuildStreamError>, (code, message, text), r),
    ensures
        code == 0x8889_0004 - 0x1_0000_0000 <==> r is DeviceNotAvailable,
        code != 0x8889_0004 - 0x1_0000_0000 ==> (
        r matches BuildStreamError::BackendSpecific { err }
            && err.description@ == message@ + text@),
{
}

/// An error of Windows turns into a `BuildStreamError`. The device is gone
/// exactly where its code says so, and any other is described by its own text, in which the
/// code is.
pub proof fn lemma_build_stream_error_of_windows(e: windows_core::Error, r: BuildStreamError)
    requires
        call_ensures(windows_err_to_cpal_err::<BuildStreamError>, (e,), r),
    ensures
        error_code(e) == 0x8889_0004 - 0x1_0000_0000 <==> r is DeviceNotAvailable,
        error_code(e) != 0x8889_0004 - 0x1_0000_0000 ==> (
        r matches BuildStreamError::BackendSpecific { err }
            && is_display_of(e, err.description@) && shows_code(err.description@, error_code(e))),
{
}

/// A failed call turns into a `SupportedStreamConfigsError`. The device is gone exactly
/// where Windows gives the number 0x88890004, and any other number is described by the
/// message with the text behind it.
pub proof fn lemma_supported_configs_error_of_a_code(
    code: i32,
    message: &str,
    text: &str,
    r: SupportedStreamConfigsError,
)
    requires
        call_ensures(error_from_parts::<SupportedStreamConfigsError>, (code, message, text), r),
    ensures
        code == 0x8889_0004 - 0x1_0000_0000 <==> r is DeviceNotAvailable,
        code != 0x8889_0004 - 0x1_0000_0000 ==> (
        r matches SupportedStreamConfigsError::BackendSpecific { err }
            && err.description@ == message@ + text@),
{
}

/// An error of Windows turns into a `SupportedStreamConfigsError`. The device is gone
/// exactly where its code says so, and any other is described by its own text, in which the
/// code is.
pub proof fn lemma_supported_configs_error_of_windows(
    e: windows_core::Error,
    r: SupportedStreamConfigsError,
)
    requires
        call_ensures(windows_err_to_cpal_err::<SupportedStreamConfigsError>, (e,), r),
    ensures
        error_code(e) == 0x8889_0004 - 0x1_0000_0000 <==> r is DeviceNotAvailable,
        error_code(e) != 0x8889_0004 - 0x1_0000_0000 ==> (
        r matches SupportedStreamConfigsError::BackendSpecific { err }
            && is_display_of(e, err.description@) && shows_code(err.description@, error_code(e))),
{
}

/// A failed call turns into a `DefaultStreamConfigError`. The device is gone exactly
/// where Windows gives the number 0x88890004, and any other number is described by the
/// message with the text behind it.
pub proof fn lemma_default_config_error_of_a_code(
    code: i32,
    message: &str,
    text: &str,
    r: DefaultStreamConfigError,
)
    requires
        call_ensures(error_from_parts::<DefaultStreamConfigError>, (code, message, text), r),
    ensures
        code == 0x8889_0004 - 0x1_0000_0000 <==> r is DeviceNotAvailable,
        code != 0x8889_0004 - 0x1_0000_0000 ==> (
        r matches DefaultStreamConfigError::BackendSpecific { err }
            && err.description@ == message@ + text@),
{
}

/// An error of Windows turns into a `DefaultStreamConfigError`. The device is gone
/// exactly where its code says so, and any other is described by its own text, in which the
/// code is.
pub proof fn lemma_default_config_error_of_windows(
    e: windows_core::Error,
    r: DefaultStreamConfigError,
)
    requires
        call_ensures(windows_err_to_cpal_err::<DefaultStreamConfigError>, (e,), r),
    ensures
        error_code(e) == 0x8889_0004 - 0x1_0000_0000 <==> r is DeviceNotAvailable,
        error_code(e) != 0x8889_0004 - 0x1_0000_0000 ==> (
        r matches DefaultStreamConfigError::BackendSpecific { err }
            && is_display_of(e, err.description@) && shows_code(err.description@, error_code(e))),
{
}

/// A failed call turns into a `StreamError`. The device is gone exactly
/// where Windows gives the number 0x88890004, and any other number is described by the
/// message with the text behind it.
pub proof fn lemma_stream_error_of_a_code(
    code: i32,
    message: &str,
    text: &str,
    r: StreamError,
)
    requires
        call_ensures(error_from_parts::<StreamError>, (code, message, text), r),
    ensures
        code == 0x8889_0004 - 0x1_0000_0000 <==> r is DeviceNotAvailable,
        code != 0x8889_0004 - 0x1_0000_0000 ==> (
        r matches StreamError::BackendSpecific { err }
            && err.description@ == message@ + text@),
{
}

/// An error of Windows turns into a `StreamError`. The device is gone
/// exactly where its code says so, and any other is described by its own text, in which the
/// code is.
pub proof fn lemma_stream_error_of_windows(e: windows_core::Error, r: StreamError)
    requires
        call_ensures(windows_err_to_cpal_err::<StreamError>, (e,), r),
    ensures
        error_code(e) == 0x8889_0004 - 0x1_0000_0000 <==> r is DeviceNotAvailable,
        error_code(e) != 0x8889_0004 - 0x1_0000_0000 ==> (
        r matches StreamError::BackendSpecific { err }
            && is_display_of(e, err.description@) && shows_code(err.description@, error_code(e))),
{
}

/// The message that goes with an error of Windows is put before the error's text.
pub proof fn lemma_message_before_text(
    e: windows_core::Error,
    message: &str,
    r: StreamError,
    b: BuildStreamError,
)
    requires
        call_ensures(windows_err_to_cpal_err_message::<StreamError>, (e, message), r),
        call_ensures(windows_err_to_cpal_err_message::<BuildStreamError>, (e, message), b),
    ensures
        error_code(e) == 0x8889_0004 - 0x1_0000_0000 <==> r is DeviceNotAvailable,
        error_code(e) == 0x8889_0004 - 0x1_0000_0000 <==> b is DeviceNotAvailable,
        error_code(e) != 0x8889_0004 - 0x1_0000_0000 ==> r is BackendSpecific && b
            is BackendSpecific,
        r matches StreamError::BackendSpecific { err } ==> message@.len() <= err.description@.len()
            && err.description@.take(message@.len() as int) == message@ && is_display_of(
            e,
            err.description@.skip(message@.len() as int),
        ),
        b matches BuildStreamError::BackendSpecific { err } ==> message@.len()
            <= err.description@.len() && err.description@.take(message@.len() as int) == message@
            && is_display_of(e, err.description@.skip(message@.len() as int)),
{
    assert forall|text: Seq<char>| #[trigger]
        (message@ + text).take(message@.len() as int) == message@ && (message@ + text).skip(
            message@.len() as int,
        ) == text by {
        assert((message@ + text).take(message@.len() as int) =~= message@);
        assert((message@ + text).skip(message@.len() as int) =~= text);
    }
}

/// What the backend says is carried as it is, whichever error carries it.
pub proof fn lemma_backend_words_are_carried(
    err: BackendSpecificError,
    a: DevicesError,
    b: DeviceNameError,
    c: SupportedStreamConfigsError,
    d: DefaultStreamConfigError,
    e: BuildStreamError,
    f: StreamError,
)
    requires
        call_ensures(<DevicesError as From<BackendSpecificError>>::from, (err,), a),
        call_ensures(<DeviceNameError as From<BackendSpecificError>>::from, (err,), b),
        call_ensures(<SupportedStreamConfigsError as From<BackendSpecificError>>::from, (err,), c),
        call_ensures(<DefaultStreamConfigError as From<BackendSpecificError>>::from, (err,), d),
        call_ensures(<BuildStreamError as From<BackendSpecificError>>::from, (err,), e),
        call_ensures(<StreamError as From<BackendSpecificError>>::from, (err,), f),
    ensures
        a == (DevicesError::BackendSpecific { err }),
        b == (DeviceNameError::BackendSpecific { err }),
        c == (SupportedStreamConfigsError::BackendSpecific { err }),
        d == (DefaultStreamConfigError::BackendSpecific { err }),
        e == (BuildStreamError::BackendSpecific { err }),
        f == (StreamError::BackendSpecific { err }),
{
}

/// The error that says that the device is gone is of that variant, whichever error type.
pub proof fn lemma_gone_is_not_available(
    c: SupportedStreamConfigsError,
    d: DefaultStreamConfigError,
    e: BuildStreamError,
    f: StreamError,
)
    requires
        call_ensures(
            <SupportedStreamConfigsError as ErrDeviceNotAvailable>::device_not_available,
            (),
            c,
        ),
        call_ensures(
            <DefaultStreamConfigError as ErrDeviceNotAvailable>::device_not_available,
            (),
            d,
        ),
        call_ensures(
            <BuildStreamError as ErrDeviceNotAvailable>::device_not_available,
            (),
            e,
        ),
        call_ensures(
            <StreamError as ErrDeviceNotAvailable>::device_not_available,
            (),
            f,
        ),
    ensures
        c is DeviceNotAvailable && d is DeviceNotAvailable,
        e is DeviceNotAvailable && f is DeviceNotAvailable,
{
}

} // verus!
