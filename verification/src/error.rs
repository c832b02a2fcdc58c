use vstd::prelude::*;

verus! {

/// The error shape surfaced to the user interface. Every subsystem maps
/// its own failures into one of these.
#[derive(Debug)]
pub enum BrailError {
    CaptureSourceLost,
    CaptureInitFailed(String),
    NoHardwareEncoder,
    EncoderInitFailed(String),
    EncoderConfigRejected(String),
    AudioDeviceError(String),
    OutputFileError(String, String),
    FinalizationFailed(String),
    StreamConnectFailed(String),
    StreamDisconnected(String),
    InvalidStreamCredentials,
    InsufficientBandwidth,
    DiskWriteFailed(String),
    UnsupportedConfiguration(String),
    SecureStorageError(String),
    HotkeyRegistrationFailed(String),
    Internal(String),
}

/// The user-facing message of an error.
pub open spec fn error_message(e: BrailError) -> Seq<char> {
    match e {
        BrailError::CaptureSourceLost => "no capturable source found (monitor/window may have disconnected)"@,
        BrailError::CaptureInitFailed(s) => "screen capture failed to initialize: "@ + s@,
        BrailError::NoHardwareEncoder => "no compatible hardware encoder is available; falling back to software encoding"@,
        BrailError::EncoderInitFailed(s) => "encoder initialization failed: "@ + s@,
        BrailError::EncoderConfigRejected(s) => "encoder rejected the requested configuration: "@ + s@,
        BrailError::AudioDeviceError(s) => "audio device error: "@ + s@,
        BrailError::OutputFileError(a, b) => "could not open output file at "@ + a@ + ": "@ + b@,
        BrailError::FinalizationFailed(s) => "recording could not be finalized cleanly; a recovery file was written: "@ + s@,
        BrailError::StreamConnectFailed(s) => "streaming connection failed: "@ + s@,
        BrailError::StreamDisconnected(s) => "streaming connection dropped: "@ + s@,
        BrailError::InvalidStreamCredentials => "invalid stream key or server configuration"@,
        BrailError::InsufficientBandwidth => "insufficient upload bandwidth for the selected quality preset"@,
        BrailError::DiskWriteFailed(s) => "disk is full or write failed: "@ + s@,
        BrailError::UnsupportedConfiguration(s) => "requested configuration is not supported on this hardware: "@ + s@,
        BrailError::SecureStorageError(s) => "secure storage error: "@ + s@,
        BrailError::HotkeyRegistrationFailed(s) => "hotkey registration failed (may be in use by another application): "@ + s@,
        BrailError::Internal(s) => "internal error: "@ + s@,
    }
}

/// `r` failed with an internal error carrying `msg`.
pub open spec fn is_internal_error<T>(r: Result<T, BrailError>, msg: Seq<char>) -> bool {
    match r {
        Err(BrailError::Internal(m)) => m@ == msg,
        _ => false,
    }
}

fn with_detail(prefix: &str, detail: &String) -> (r: String)
    ensures
        r@ == prefix@ + detail@,
{
    let mut r = String::from_str(prefix);
    r.append(detail.as_str());
    r
}

impl BrailError {
    /// The message shown to the user for this error.
    pub fn message(&self) -> (m: String)
        ensures
            m@ == error_message(*self),
    {
        match self {
            BrailError::CaptureSourceLost => String::from_str("no capturable source found (monitor/window may have disconnected)"),
            BrailError::CaptureInitFailed(s) => with_detail("screen capture failed to initialize: ", s),
            BrailError::NoHardwareEncoder => String::from_str("no compatible hardware encoder is available; falling back to software encoding"),
            BrailError::EncoderInitFailed(s) => with_detail("encoder initialization failed: ", s),
            BrailError::EncoderConfigRejected(s) => with_detail("encoder rejected the requested configuration: ", s),
            BrailError::AudioDeviceError(s) => with_detail("audio device error: ", s),
            BrailError::OutputFileError(a, b) => {
                let mut r = with_detail("could not open output file at ", a);
                r.append(": ");
                r.append(b.as_str());
                r
            },
            BrailError::FinalizationFailed(s) => with_detail("recording could not be finalized cleanly; a recovery file was written: ", s),
            BrailError::StreamConnectFailed(s) => with_detail("streaming connection failed: ", s),
            BrailError::StreamDisconnected(s) => with_detail("streaming connection dropped: ", s),
            BrailError::InvalidStreamCredentials => String::from_str("invalid stream key or server configuration"),
            BrailError::InsufficientBandwidth => String::from_str("insufficient upload bandwidth for the selected quality preset"),
            BrailError::DiskWriteFailed(s) => with_detail("disk is full or write failed: ", s),
            BrailError::UnsupportedConfiguration(s) => with_detail("requested configuration is not supported on this hardware: ", s),
            BrailError::SecureStorageError(s) => with_detail("secure storage error: ", s),
            BrailError::HotkeyRegistrationFailed(s) => with_detail("hotkey registration failed (may be in use by another application): ", s),
            BrailError::Internal(s) => with_detail("internal error: ", s),
        }
    }
}

} // verus!
