//! Errors of the audio host, and how errors of Windows turn into them.
use vstd::prelude::*;
use vstd::std_specs::convert::FromSpec;

verus! {

/// `AUDCLNT_E_DEVICE_INVALIDATED` (0x88890004): the endpoint was unplugged, or the
/// audio hardware was reconfigured, disabled, removed or made unavailable.
pub const AUDCLNT_E_DEVICE_INVALIDATED: i32 = -0x7776_FFFC;

/// `S_FALSE`: the call succeeded with a qualification.
pub const S_FALSE: i32 = 1;

/// An error that only the audio backend can describe.
#[derive(Clone, Debug, PartialEq, Eq)]
pub struct BackendSpecificError {
    pub description: String,
}

/// The host cannot be used.
#[derive(Clone, Copy, Debug, PartialEq, Eq, Structural)]
pub struct HostUnavailable;

/// Why the devices could not be enumerated.
#[derive(Clone, Debug, PartialEq, Eq)]
pub enum DevicesError {
    BackendSpecific { err: BackendSpecificError },
}

/// Why a device's name could not be read.
#[derive(Clone, Debug, PartialEq, Eq)]
pub enum DeviceNameError {
    BackendSpecific { err: BackendSpecificError },
}

/// Why the supported configurations of a device could not be listed.
#[derive(Clone, Debug, PartialEq, Eq)]
pub enum SupportedStreamConfigsError {
    DeviceNotAvailable,
    InvalidArgument,
    BackendSpecific { err: BackendSpecificError },
}

/// Why a device has no default configuration to report.
#[derive(Clone, Debug, PartialEq, Eq)]
pub enum DefaultStreamConfigError {
    DeviceNotAvailable,
    StreamTypeNotSupported,
    BackendSpecific { err: BackendSpecificError },
}

/// Why a stream could not be opened.
#[derive(Clone, Debug, PartialEq, Eq)]
pub enum BuildStreamError {
    DeviceNotAvailable,
    StreamConfigNotSupported,
    InvalidArgument,
    StreamIdOverflow,
    BackendSpecific { err: BackendSpecificError },
}

/// Why a running stream broke down.
#[derive(Clone, Debug, PartialEq, Eq)]
pub enum StreamError {
    DeviceNotAvailable,
    BackendSpecific { err: BackendSpecificError },
}

impl DevicesError {
    /// What the backend said.
    pub open spec fn backend_description(self) -> Option<Seq<char>> {
        match self {
            DevicesError::BackendSpecific { err } => Some(err.description@),
        }
    }
}

impl DeviceNameError {
    /// What the backend said.
    pub open spec fn backend_description(self) -> Option<Seq<char>> {
        match self {
            DeviceNameError::BackendSpecific { err } => Some(err.description@),
        }
    }
}

impl vstd::std_specs::convert::FromSpecImpl<BackendSpecificError> for DevicesError {
    open spec fn obeys_from_spec() -> bool {
        true
    }

    open spec fn from_spec(err: BackendSpecificError) -> Self {
        DevicesError::BackendSpecific { err }
    }
}

impl From<BackendSpecificError> for DevicesError {
    fn from(err: BackendSpecificError) -> (r: Self) {
        DevicesError::BackendSpecific { err }
    }
}

impl vstd::std_specs::convert::FromSpecImpl<BackendSpecificError> for DeviceNameError {
    open spec fn obeys_from_spec() -> bool {
        true
    }

    open spec fn from_spec(err: BackendSpecificError) -> Self {
        DeviceNameError::BackendSpecific { err }
    }
}

impl From<BackendSpecificError> for DeviceNameError {
    fn from(err: BackendSpecificError) -> (r: Self) {
        DeviceNameError::BackendSpecific { err }
    }
}

impl vstd::std_specs::convert::FromSpecImpl<BackendSpecificError> for SupportedStreamConfigsError {
    open spec fn obeys_from_spec() -> bool {
        true
    }

    open spec fn from_spec(err: BackendSpecificError) -> Self {
        SupportedStreamConfigsError::BackendSpecific { err }
    }
}

impl From<BackendSpecificError> for SupportedStreamConfigsError {
    fn from(err: BackendSpecificError) -> (r: Self) {
        SupportedStreamConfigsError::BackendSpecific { err }
    }
}

impl vstd::std_specs::convert::FromSpecImpl<BackendSpecificError> for DefaultStreamConfigError {
    open spec fn obeys_from_spec() -> bool {
        true
    }

    open spec fn from_spec(err: BackendSpecificError) -> Self {
        DefaultStreamConfigError::BackendSpecific { err }
    }
}

impl From<BackendSpecificError> for DefaultStreamConfigError {
    fn from(err: BackendSpecificError) -> (r: Self) {
        DefaultStreamConfigError::BackendSpecific { err }
    }
}

impl vstd::std_specs::convert::FromSpecImpl<BackendSpecificError> for BuildStreamError {
    open spec fn obeys_from_spec() -> bool {
        true
    }

    open spec fn from_spec(err: BackendSpecificError) -> Self {
        BuildStreamError::BackendSpecific { err }
    }
}

impl From<BackendSpecificError> for BuildStreamError {
    fn from(err: BackendSpecificError) -> (r: Self) {
        BuildStreamError::BackendSpecific { err }
    }
}

impl vstd::std_specs::convert::FromSpecImpl<BackendSpecificError> for StreamError {
    open spec fn obeys_from_spec() -> bool {
        true
    }

    open spec fn from_spec(err: BackendSpecificError) -> Self {
        StreamError::BackendSpecific { err }
    }
}

impl From<BackendSpecificError> for StreamError {
    fn from(err: BackendSpecificError) -> (r: Self) {
        StreamError::BackendSpecific { err }
    }
}

/// An error type that can say that the device is gone, besides carrying what the
/// backend says of any other failure.
pub trait ErrDeviceNotAvailable: From<BackendSpecificError> {
    /// The error says that the device is gone.
    spec fn says_not_available(self) -> bool;

    /// What the backend said, where the error carries that.
    spec fn backend_description(self) -> Option<Seq<char>>;

    /// The error that says that the device is gone.
    fn device_not_available() -> (r: Self)
        ensures
            r.says_not_available(),
    ;

    /// An error made from the backend's words carries these words.
    proof fn lemma_from_carries_description(err: BackendSpecificError)
        ensures
            Self::obeys_from_spec(),
            Self::from_spec(err).backend_description() == Some(err.description@),
    ;

    /// No error both says that the device is gone and carries the backend's words.
    proof fn lemma_not_both(self)
        ensures
            self.says_not_available() ==> self.backend_description() is None,
    ;
}

impl ErrDeviceNotAvailable for BuildStreamError {
    open spec fn says_not_available(self) -> bool {
        self is DeviceNotAvailable
    }

    open spec fn backend_description(self) -> Option<Seq<char>> {
        match self {
            BuildStreamError::BackendSpecific { err } => Some(err.description@),
            _ => None,
        }
    }

    fn device_not_available() -> (r: Self) {
        Self::DeviceNotAvailable
    }

    proof fn lemma_from_carries_description(err: BackendSpecificError) {
    }

    proof fn lemma_not_both(self) {
    }
}

impl ErrDeviceNotAvailable for SupportedStreamConfigsError {
    open spec fn says_not_available(self) -> bool {
        self is DeviceNotAvailable
    }

    open spec fn backend_description(self) -> Option<Seq<char>> {
        match self {
            SupportedStreamConfigsError::BackendSpecific { err } => Some(err.description@),
            _ => None,
        }
    }

    fn device_not_available() -> (r: Self) {
        Self::DeviceNotAvailable
    }

    proof fn lemma_from_carries_description(err: BackendSpecificError) {
    }

    proof fn lemma_not_both(self) {
    }
}

impl ErrDeviceNotAvailable for DefaultStreamConfigError {
    open spec fn says_not_available(self) -> bool {
        self is DeviceNotAvailable
    }

    open spec fn backend_description(self) -> Option<Seq<char>> {
        match self {
            DefaultStreamConfigError::BackendSpecific { err } => Some(err.description@),
            _ => None,
        }
    }

    fn device_not_available() -> (r: Self) {
        Self::DeviceNotAvailable
    }

    proof fn lemma_from_carries_description(err: BackendSpecificError) {
    }

    proof fn lemma_not_both(self) {
    }
}

impl ErrDeviceNotAvailable for StreamError {
    open spec fn says_not_available(self) -> bool {
        self is DeviceNotAvailable
    }

    open spec fn backend_description(self) -> Option<Seq<char>> {
        match self {
            StreamError::BackendSpecific { err } => Some(err.description@),
            _ => None,
        }
    }

    fn device_not_available() -> (r: Self) {
        Self::DeviceNotAvailable
    }

    proof fn lemma_from_carries_description(err: BackendSpecificError) {
    }

    proof fn lemma_not_both(self) {
    }
}

/// The error value of the Windows bindings.
#[verifier::external_type_specification]
#[verifier::external_body]
pub struct ExWindowsError(windows_core::Error);

/// The `HRESULT` that an error of Windows carries.
pub uninterp spec fn error_code(e: windows_core::Error) -> i32;

/// `windows_core::Error::code`: the `HRESULT` that the error carries, as a number.
#[verifier::external_body]
fn code_of(e: &windows_core::Error) -> (code: i32)
    ensures
        code == error_code(*e),
{
    e.code().0
}

/// `windows_core::Error::new`: an error that carries the given `HRESULT`. The one
/// number left out, the letters `S_OK`, is what the type stores in place of zero:
/// an error made of it reports zero. What the message does to the error's text is
/// left unsaid: it depends on the system.
#[verifier::external_body]
fn new_windows_error(code: i32, message: &str) -> (e: windows_core::Error)
    requires
        code != 0x535F_4F4B,
    ensures
        error_code(e) == code,
{
    windows_core::Error::new(windows_core::HRESULT(code), message)
}

/// `e` is an error made of the given `HRESULT` and message.
pub closed spec fn is_error_with(e: windows_core::Error, code: i32, message: Seq<char>) -> bool {
    exists|m: &str| call_ensures(new_windows_error, (code, m), e) && #[trigger] m@ == message
}

/// Returns the error that says that the device is gone, with a message of our own.
pub(crate) fn invalidated_error(message: &str) -> (e: windows_core::Error)
    ensures
        error_code(e) == AUDCLNT_E_DEVICE_INVALIDATED,
        is_error_with(e, AUDCLNT_E_DEVICE_INVALIDATED, message@),
{
    new_windows_error(AUDCLNT_E_DEVICE_INVALIDATED, message)
}

/// The error of a device that is gone is the one that Windows makes of the number 0x88890004
/// and the given message.
proof fn lemma_invalidated_error_has_the_message(message: &str, e: windows_core::Error)
    requires
        call_ensures(invalidated_error, (message,), e),
    ensures
        exists|m: &str|
            call_ensures(new_windows_error, (-0x7776_FFFCi32, m), e) && #[trigger] m@ == message@,
{
}

/// An upper-case hexadecimal digit.
pub open spec fn hex_digit(n: int) -> char {
    seq!['0', '1', '2', '3', '4', '5', '6', '7', '8', '9', 'A', 'B', 'C', 'D', 'E', 'F'][n]
}

/// How an `HRESULT` is written: `0x` and the eight hexadecimal digits of its bits.
#[verifier::opaque]
pub open spec fn hresult_text(code: i32) -> Seq<char> {
    let bits: int = if code < 0 {
        code + 0x1_0000_0000
    } else {
        code as int
    };
    seq![
        '0',
        'x',
        hex_digit(bits / 0x1000_0000 % 16),
        hex_digit(bits / 0x100_0000 % 16),
        hex_digit(bits / 0x10_0000 % 16),
        hex_digit(bits / 0x1_0000 % 16),
        hex_digit(bits / 0x1000 % 16),
        hex_digit(bits / 0x100 % 16),
        hex_digit(bits / 0x10 % 16),
        hex_digit(bits % 16),
    ]
}

/// Words with the code of an error in brackets behind them.
pub open spec fn words_with_code(words: Seq<char>, code: i32) -> Seq<char> {
    words + seq![' ', '('] + hresult_text(code) + seq![')']
}

/// `text` is the code of an error, or some words with the code in brackets behind them.
pub open spec fn shows_code(text: Seq<char>, code: i32) -> bool {
    ||| text == hresult_text(code)
    ||| exists|words: Seq<char>| text == #[trigger] words_with_code(words, code)
}

/// The `Display` text of `windows_core::Error`: the error's code alone, or the system's
/// message with the code in brackets behind it. Which of the two it is, and what the
/// message says, is left unsaid: that depends on the system and its language.
#[verifier::external_body]
fn error_text(e: &windows_core::Error) -> (text: String)
    ensures
        shows_code(text@, error_code(*e)),
{
    format!("{}", e)
}

/// `text` is what the error's `Display` may give.
pub closed spec fn is_display_of(e: windows_core::Error, text: Seq<char>) -> bool {
    exists|s: String| call_ensures(error_text, (&e,), s) && #[trigger] s@ == text
}

/// `text` is the text of the error, with the error's code in it.
pub open spec fn is_text_of(e: windows_core::Error, text: Seq<char>) -> bool {
    is_display_of(e, text) && shows_code(text, error_code(e))
}

/// Returns the text of the error.
pub(crate) fn display_text(e: &windows_core::Error) -> (text: String)
    ensures
        is_text_of(*e, text@),
{
    error_text(e)
}

/// The text of an error is the one that Windows shows for it, letter by letter.
proof fn lemma_text_is_the_shown_one(e: windows_core::Error, text: String)
    requires
        call_ensures(display_text, (&e,), text),
    ensures
        exists|s: String| call_ensures(error_text, (&e,), s) && #[trigger] s@ == text@,
{
}

/// The `Display` text of the `std::io::Error` that `windows_core::Error` converts
/// into. Nothing is said of it: it is the system's own message.
#[verifier::external_body]
fn io_error_text(e: windows_core::Error) -> (text: String) {
    format!("{}", std::io::Error::from(e))
}

/// `text` is what the `std::io::Error` made of the error may give as its `Display`.
pub closed spec fn is_io_text_of(e: windows_core::Error, text: Seq<char>) -> bool {
    exists|s: String| call_ensures(io_error_text, (e,), s) && #[trigger] s@ == text
}

/// `windows_core::HRESULT::is_err`: an `HRESULT` is a failure exactly where it is
/// negative.
#[verifier::external_body]
pub(crate) fn hresult_is_err(code: i32) -> (r: bool)
    ensures
        r == (code < 0),
{
    windows_core::HRESULT(code).is_err()
}

impl vstd::std_specs::convert::FromSpecImpl<windows_core::Error> for BackendSpecificError {
    open spec fn obeys_from_spec() -> bool {
        false
    }

    open spec fn from_spec(error: windows_core::Error) -> Self {
        arbitrary()
    }
}

impl From<windows_core::Error> for BackendSpecificError {
    /// Wraps the system's message for the error. What the message says is the machine's
    /// own.
    fn from(error: windows_core::Error) -> (r: Self)
        ensures
            is_io_text_of(error, r.description@),
    {
        BackendSpecificError { description: io_error_text(error) }
    }
}

/// What the backend says of an error of Windows is the system's message, letter by letter.
proof fn lemma_backend_says_the_message(e: windows_core::Error, r: BackendSpecificError)
    requires
        call_ensures(<BackendSpecificError as From<windows_core::Error>>::from, (e,), r),
    ensures
        exists|s: String| call_ensures(io_error_text, (e,), s) && #[trigger] s@ == r.description@,
{
}

/// Turns what is known of a failed call into an error: the device is gone where
/// Windows says so, and any other failure is described by `message` and `text`.
pub fn error_from_parts<E: ErrDeviceNotAvailable>(code: i32, message: &str, text: &str) -> (r: E)
    ensures
        r.says_not_available() <==> code == AUDCLNT_E_DEVICE_INVALIDATED,
        code != AUDCLNT_E_DEVICE_INVALIDATED ==> r.backend_description() == Some(message@ + text@),
{
    if code == AUDCLNT_E_DEVICE_INVALIDATED {
        E::device_not_available()
    } else {
        let mut description: String = message.to_owned();
        description.append(text);
        let err = BackendSpecificError { description };
        proof {
            E::lemma_from_carries_description(err);
            E::from_spec(err).lemma_not_both();
        }
        E::from(err)
    }
}

/// Turns an error of Windows into an error of the host, with `message` put before the
/// system's text.
pub fn windows_err_to_cpal_err_message<E: ErrDeviceNotAvailable>(
    e: windows_core::Error,
    message: &str,
) -> (r: E)
    ensures
        r.says_not_available() <==> error_code(e) == AUDCLNT_E_DEVICE_INVALIDATED,
        error_code(e) != AUDCLNT_E_DEVICE_INVALIDATED ==> exists|text: Seq<char>|
            is_text_of(e, text) && r.backend_description() == Some(
                #[trigger] (message@ + text),
            ),
{
    let code: i32 = code_of(&e);
    let text: String = display_text(&e);
    error_from_parts(code, message, text.as_str())
}

/// The error is what an error of Windows turns into.
pub open spec fn comes_from<E: ErrDeviceNotAvailable>(err: E, e: windows_core::Error) -> bool {
    &&& err.says_not_available() <==> error_code(e) == AUDCLNT_E_DEVICE_INVALIDATED
    &&& error_code(e) != AUDCLNT_E_DEVICE_INVALIDATED ==> (err.backend_description() matches Some(
        text,
    ) && is_text_of(e, text))
}

/// Turns an error of Windows into an error of the host.
pub fn windows_err_to_cpal_err<E: ErrDeviceNotAvailable>(e: windows_core::Error) -> (r: E)
    ensures
        comes_from(r, e),
{
    proof {
        reveal_strlit("");
        assert forall|text: Seq<char>| #[trigger] (""@ + text) == text by {
            assert(""@ + text =~= text);
        }
    }
    windows_err_to_cpal_err_message::<E>(e, "")
}

} // verus!
