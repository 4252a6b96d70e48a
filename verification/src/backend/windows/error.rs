//! The errors that Windows error codes are reported as.

use vstd::prelude::*;
use vstd::string::*;
use crate::body::hex_digit;
use crate::error::Error;

verus! {

/// How a known error code is reported.
pub enum KnownWindowsError {
    /// As a timeout
    Timeout,
    /// As a network error with this message
    Network(Seq<char>),
    /// As an internal error with this message
    Internal(Seq<char>),
}

/// The report for a code of the table, if the code is in it.
pub open spec fn spec_known_windows_error(hresult: i64) -> Option<KnownWindowsError> {
    match hresult {
        0x80072EE7 => Some(KnownWindowsError::Network("The server name or address could not be resolved"@)),
        0x80072EFD => Some(KnownWindowsError::Network("The connection with the server was terminated abnormally"@)),
        0x80072EE2 => Some(KnownWindowsError::Timeout),
        0x80072F05 => Some(KnownWindowsError::Network("The URL is invalid"@)),
        0x80072F06 => Some(KnownWindowsError::Network("The URL scheme is invalid"@)),
        0x80072F0C => Some(KnownWindowsError::Network("The server returned an invalid response"@)),
        0x80072F0D => Some(KnownWindowsError::Network("The request has timed out"@)),
        0x80072F17 => Some(KnownWindowsError::Network("The operation was cancelled"@)),
        0x80072F19 => Some(KnownWindowsError::Network("The requested resource could not be found"@)),
        0x80072F76 => Some(KnownWindowsError::Network("The HTTP redirect request failed"@)),
        0x80072F7D => Some(KnownWindowsError::Network("The application is moving from a non-SSL to an SSL connection"@)),
        0x80072F8F => Some(KnownWindowsError::Network("The certificate authority is invalid or incorrect"@)),
        0x80072F90 => Some(KnownWindowsError::Network("The SSL certificate contains errors"@)),
        0x80072EF4 => Some(KnownWindowsError::Network("WebSocket protocol error"@)),
        0x80072EF5 => Some(KnownWindowsError::Network("WebSocket data type error"@)),
        0x80004005 => Some(KnownWindowsError::Internal("Unspecified error"@)),
        0x80070005 => Some(KnownWindowsError::Internal("Access denied"@)),
        0x8007000E => Some(KnownWindowsError::Internal("Out of memory"@)),
        0x80070057 => Some(KnownWindowsError::Internal("Invalid argument"@)),
        _ => None,
    }
}

/// The upper-case hexadecimal digits of a number.
pub open spec fn spec_hex(n: nat) -> Seq<char>
    decreases n,
{
    if n < 16 {
        seq![hex_digit(n as int)]
    } else {
        spec_hex(n / 16).push(hex_digit((n % 16) as int))
    }
}

/// `s` left-padded with zeros to at least `width` characters.
pub open spec fn pad_zeros(s: Seq<char>, width: nat) -> Seq<char> {
    if s.len() >= width {
        s
    } else {
        Seq::new((width - s.len()) as nat, |i: int| '0') + s
    }
}

/// Formats a number in upper-case hexadecimal.
fn hex(n: u64) -> (s: String)
    ensures
        s@ == spec_hex(n as nat),
    decreases n,
{
    let d = (n % 16) as u8;
    let c = if d < 10 { (48 + d) as char } else { (55 + d) as char };
    if n < 16 {
        let mut s = String::new();
        s.push(c);
        s
    } else {
        let mut s = hex(n / 16);
        s.push(c);
        s
    }
}

/// Formats a number the way `{:08X}` formats an `i64`: its 64-bit
/// two's complement in upper-case hexadecimal, at least eight digits.
fn hex8(v: i64) -> (s: String)
    ensures
        s@ == pad_zeros(spec_hex(v as u64 as nat), 8),
{
    let digits = hex(v as u64);
    let mut s = String::new();
    let mut k: usize = crate::text::chars_of(digits.as_str()).len();
    while k < 8
        invariant
            digits@ == spec_hex(v as u64 as nat),
            digits@.len() <= k <= 8 || (k == digits@.len() && k >= 8),
            s@ == Seq::new((k - digits@.len()) as nat, |i: int| '0'),
        decreases 8 - k,
    {
        s.push('0');
        assert(s@ =~= Seq::new((k + 1 - digits@.len()) as nat, |i: int| '0'));
        k += 1;
    }
    s.append(digits.as_str());
    proof {
        if digits@.len() >= 8 {
            assert(s@ =~= digits@);
        } else {
            assert(s@ =~= Seq::new((8 - digits@.len()) as nat, |i: int| '0') + digits@);
        }
    }
    s
}

/// The report of an error code that is not in the table.
pub open spec fn spec_generic_message(hresult: i64, message: Seq<char>) -> Seq<char> {
    "Windows error: 0x"@ + pad_zeros(spec_hex(hresult as u64 as nat), 8) + " - "@ + message
}

/// Whether `e` is how the code with this message is reported: the table's
/// report for a known code (network errors carry the code), otherwise an
/// internal error with the code in hexadecimal and the system's message.
pub open spec fn reports_windows_error(e: Error, hresult: i64, message: Seq<char>) -> bool {
    match spec_known_windows_error(hresult) {
        Some(KnownWindowsError::Timeout) => e is Timeout,
        Some(KnownWindowsError::Network(m)) => e matches Error::Network { code, message: t } && code == hresult && t@ == m,
        Some(KnownWindowsError::Internal(m)) => e matches Error::Internal(t) && t@ == m,
        None => e matches Error::Internal(t) && t@ == spec_generic_message(hresult, message),
    }
}

/// The code of an `HRESULT` as the table lists it: its 32 bits read as
/// an unsigned number.
pub open spec fn spec_hresult(code: i32) -> i64 {
    code as u32 as i64
}

/// The code of an `HRESULT` as the table lists it (see `spec_hresult`).
pub fn hresult_code(code: i32) -> (h: i64)
    ensures
        h == spec_hresult(code),
        0 <= h <= u32::MAX,
{
    (code as u32) as i64
}

/// Maps a Windows error (its `HRESULT` code and its system message) to
/// the library's error. The code is read as an unsigned 32-bit number
/// before the table is consulted.
pub fn map_windows_error(code: i32, message: &str) -> (e: Error)
    ensures
        reports_windows_error(e, spec_hresult(code), message@),
{
    let hresult = hresult_code(code);
    proof {
        reveal_strlit("Windows error: 0x");
        reveal_strlit(" - ");
    }
    match hresult {
        0x80072EE7 => Error::Network { code: hresult, message: String::from_str("The server name or address could not be resolved") },
        0x80072EFD => Error::Network { code: hresult, message: String::from_str("The connection with the server was terminated abnormally") },
        0x80072EE2 => Error::Timeout,
        0x80072F05 => Error::Network { code: hresult, message: String::from_str("The URL is invalid") },
        0x80072F06 => Error::Network { code: hresult, message: String::from_str("The URL scheme is invalid") },
        0x80072F0C => Error::Network { code: hresult, message: String::from_str("The server returned an invalid response") },
        0x80072F0D => Error::Network { code: hresult, message: String::from_str("The request has timed out") },
        0x80072F17 => Error::Network { code: hresult, message: String::from_str("The operation was cancelled") },
        0x80072F19 => Error::Network { code: hresult, message: String::from_str("The requested resource could not be found") },
        0x80072F76 => Error::Network { code: hresult, message: String::from_str("The HTTP redirect request failed") },
        0x80072F7D => Error::Network { code: hresult, message: String::from_str("The application is moving from a non-SSL to an SSL connection") },
        0x80072F8F => Error::Network { code: hresult, message: String::from_str("The certificate authority is invalid or incorrect") },
        0x80072F90 => Error::Network { code: hresult, message: String::from_str("The SSL certificate contains errors") },
        0x80072EF4 => Error::Network { code: hresult, message: String::from_str("WebSocket protocol error") },
        0x80072EF5 => Error::Network { code: hresult, message: String::from_str("WebSocket data type error") },
        0x80004005 => Error::Internal(String::from_str("Unspecified error")),
        0x80070005 => Error::Internal(String::from_str("Access denied")),
        0x8007000E => Error::Internal(String::from_str("Out of memory")),
        0x80070057 => Error::Internal(String::from_str("Invalid argument")),
        _ => {
            let mut m = String::from_str("Windows error: 0x");
            let h = hex8(hresult);
            m.append(h.as_str());
            m.append(" - ");
            m.append(message);
            Error::Internal(m)
        },
    }
}

/// Maps a Windows error as `map_windows_error` does and puts the context
/// in front of the message of an internal or network error: "context:
/// message".
pub fn map_windows_error_with_context(code: i32, message: &str, context: &str) -> (e: Error)
    ensures
        match spec_known_windows_error(spec_hresult(code)) {
            Some(KnownWindowsError::Timeout) => e is Timeout,
            Some(KnownWindowsError::Network(m)) => e matches Error::Network { code: c, message: t } && c == spec_hresult(code)
                && t@ == context@ + ": "@ + m,
            Some(KnownWindowsError::Internal(m)) => e matches Error::Internal(t) && t@ == context@ + ": "@ + m,
            None => e matches Error::Internal(t) && t@ == context@ + ": "@ + spec_generic_message(spec_hresult(code), message@),
        },
{
    let mapped = map_windows_error(code, message);
    match mapped {
        Error::Internal(m) => {
            let mut t = String::from_str(context);
            t.append(": ");
            t.append(m.as_str());
            Error::Internal(t)
        },
        Error::Network { code, message } => {
            let mut t = String::from_str(context);
            t.append(": ");
            t.append(message.as_str());
            Error::Network { code, message: t }
        },
        other => other,
    }
}

} // verus!
