use vstd::prelude::*;
use vstd::string::StringExecFns;
use crate::platform::traits::Platform;

verus! {

/// Everything that can go wrong between the capture callback and the render
/// loop. None of these is fatal: the worst outcome is that no live frame is
/// available.
#[derive(Debug, Clone, Copy, PartialEq, Eq, Structural)]
pub enum CaptureError {
    /// The platform has no capture backend.
    UnsupportedPlatform(Platform),
    /// The native buffer is not in the one supported 32-bit layout; carries
    /// the format code that was delivered.
    UnsupportedPixelFormat(u32),
    /// The native buffer could not be locked for reading.
    BufferLockFailure,
    /// The native buffer has no readable memory behind it.
    NullBaseAddress,
    /// A row of the native buffer is shorter than its pixels need.
    StrideTooSmall,
    /// The operating system listed no display.
    NoDisplayFound,
    /// The operating system refused to list what can be captured.
    PermissionDenied,
    /// A capture session is already running on this adapter.
    SessionAlreadyActive,
}

/// The character that stands for the digit `d`.
pub open spec fn digit_char(d: int) -> char {
    if d == 0 {
        '0'
    } else if d == 1 {
        '1'
    } else if d == 2 {
        '2'
    } else if d == 3 {
        '3'
    } else if d == 4 {
        '4'
    } else if d == 5 {
        '5'
    } else if d == 6 {
        '6'
    } else if d == 7 {
        '7'
    } else if d == 8 {
        '8'
    } else {
        '9'
    }
}

/// `n` written in decimal, without sign or leading zeros.
pub open spec fn decimal_text(n: nat) -> Seq<char>
    decreases n,
{
    if n < 10 {
        seq![digit_char(n as int)]
    } else {
        decimal_text(n / 10).push(digit_char((n % 10) as int))
    }
}

/// Calls `u32::to_string` of the standard library, which writes the number
/// in decimal: the digits of `value`, most significant first, and nothing
/// else. That the text is `decimal_text(value)` is taken on trust.
#[verifier::external_body]
fn decimal_string(value: u32) -> (text: String)
    ensures
        text@ == decimal_text(value as nat),
{
    value.to_string()
}

impl CaptureError {
    /// The text of `message`.
    pub open spec fn message_text(self) -> Seq<char> {
        match self {
            CaptureError::UnsupportedPlatform(platform) => "Platform "@ + platform.name_text()
                + " is not yet supported"@,
            CaptureError::UnsupportedPixelFormat(format) => "Unsupported pixel format: "@
                + decimal_text(format as nat),
            CaptureError::BufferLockFailure => "Failed to lock the pixel buffer"@,
            CaptureError::NullBaseAddress => "Pixel buffer base address is null"@,
            CaptureError::StrideTooSmall => "Pixel buffer rows are shorter than their pixels"@,
            CaptureError::NoDisplayFound => "No displays found"@,
            CaptureError::PermissionDenied => "Screen Recording permission denied"@,
            CaptureError::SessionAlreadyActive => "Screen capture is already running"@,
        }
    }

    /// A description of the error for the user.
    pub fn message(&self) -> (text: String)
        ensures
            text@ == self.message_text(),
    {
        match self {
            CaptureError::UnsupportedPlatform(platform) => {
                let mut text = "Platform ".to_owned();
                text.append(platform.name());
                text.append(" is not yet supported");
                text
            },
            CaptureError::UnsupportedPixelFormat(format) => {
                let mut text = "Unsupported pixel format: ".to_owned();
                let digits = decimal_string(*format);
                text.append(digits.as_str());
                text
            },
            CaptureError::BufferLockFailure => "Failed to lock the pixel buffer".to_owned(),
            CaptureError::NullBaseAddress => "Pixel buffer base address is null".to_owned(),
            CaptureError::StrideTooSmall => "Pixel buffer rows are shorter than their pixels".to_owned(),
            CaptureError::NoDisplayFound => "No displays found".to_owned(),
            CaptureError::PermissionDenied => "Screen Recording permission denied".to_owned(),
            CaptureError::SessionAlreadyActive => "Screen capture is already running".to_owned(),
        }
    }
}

} // verus!
