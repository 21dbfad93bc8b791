//! Structured errors carried across the recording pipeline.
//!
//! Every error holds a stable machine-readable `code`, a human-readable
//! `message`, and an optional `details` string.

use vstd::prelude::*;
use vstd::string::StringExecFns;

verus! {

/// Error type shared by every component of the recorder.
#[derive(Debug, Clone)]
pub struct RecorderError {
    pub code: String,
    pub message: String,
    pub details: Option<String>,
}

impl RecorderError {
    /// True when the error carries the device-not-found code.
    pub open spec fn is_device_not_found(self) -> bool {
        self.code@ == "DEVICE_NOT_FOUND"@
    }

    /// True when the error carries the already-recording code.
    pub open spec fn is_already_recording(self) -> bool {
        self.code@ == "ALREADY_RECORDING"@
    }

    /// True when the error carries the not-recording code.
    pub open spec fn is_not_recording(self) -> bool {
        self.code@ == "NOT_RECORDING"@
    }

    /// True when the error carries the invalid-settings code.
    pub open spec fn is_invalid_settings(self) -> bool {
        self.code@ == "INVALID_SETTINGS"@
    }

    /// True when the error carries the encoding-failed code.
    pub open spec fn is_encoding_failed(self) -> bool {
        self.code@ == "ENCODING_FAILED"@
    }

    /// True when the error carries the file-error code.
    pub open spec fn is_file_error(self) -> bool {
        self.code@ == "FILE_ERROR"@
    }

    pub fn new(code: String, message: String, details: Option<String>) -> (r: Self)
        ensures
            r.code@ == code@,
            r.message@ == message@,
            r.details == details,
    {
        Self { code, message, details }
    }

    /// A device (display/camera/microphone) was not found.
    pub fn device_not_found(device_type: &str) -> (r: Self)
        ensures
            r.is_device_not_found(),
            r.message@ == device_type@ + " not found. Check if it's connected and available."@,
            r.details is None,
    {
        let message = device_type.to_owned().concat(
            " not found. Check if it's connected and available.",
        );
        Self::new("DEVICE_NOT_FOUND".to_owned(), message, None)
    }

    /// Recording start was requested while already recording.
    pub fn already_recording() -> (r: Self)
        ensures
            r.is_already_recording(),
            r.message@ == "Recording is already in progress."@,
            r.details is None,
    {
        Self::new(
            "ALREADY_RECORDING".to_owned(),
            "Recording is already in progress.".to_owned(),
            None,
        )
    }

    /// Recording stop/pause/resume was requested while not recording.
    pub fn not_recording() -> (r: Self)
        ensures
            r.is_not_recording(),
            r.message@ == "No active recording."@,
            r.details is None,
    {
        Self::new("NOT_RECORDING".to_owned(), "No active recording.".to_owned(), None)
    }

    /// The configuration is malformed or incompatible with the request.
    pub fn invalid_settings(reason: &str) -> (r: Self)
        ensures
            r.is_invalid_settings(),
            r.message@ == "Invalid settings."@,
            r.details matches Some(d) && d@ == reason@,
    {
        Self::new(
            "INVALID_SETTINGS".to_owned(),
            "Invalid settings.".to_owned(),
            Some(reason.to_owned()),
        )
    }

    /// The muxer or codec failed.
    pub fn encoding_failed(reason: &str) -> (r: Self)
        ensures
            r.is_encoding_failed(),
            r.message@ == "Encoding failed."@,
            r.details matches Some(d) && d@ == reason@,
    {
        Self::new(
            "ENCODING_FAILED".to_owned(),
            "Encoding failed.".to_owned(),
            Some(reason.to_owned()),
        )
    }

    /// A file-system operation failed.
    pub fn file_error(reason: &str) -> (r: Self)
        ensures
            r.is_file_error(),
            r.message@ == "File system error."@,
            r.details matches Some(d) && d@ == reason@,
    {
        Self::new(
            "FILE_ERROR".to_owned(),
            "File system error.".to_owned(),
            Some(reason.to_owned()),
        )
    }

    /// Renders the error as `code: message` or `code: message (details)`.
    pub fn display_string(&self) -> (r: String)
        ensures
            match self.details {
                Some(d) => r@ == self.code@ + ": "@ + self.message@ + " ("@ + d@ + ")"@,
                None => r@ == self.code@ + ": "@ + self.message@,
            },
    {
        let mut out = self.code.clone();
        out.append(": ");
        out.append(self.message.as_str());
        match &self.details {
            Some(d) => {
                out.append(" (");
                out.append(d.as_str());
                out.append(")");
            }
            None => {}
        }
        out
    }
}

} // verus!
