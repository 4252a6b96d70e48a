//! The library error an `NSError` of the URL loading system stands for.

use vstd::prelude::*;
use vstd::string::*;
use crate::error::Error;
use crate::text::{signed_decimal, spec_signed_decimal};

verus! {

/// The error an `NSError` stands for, given whether its domain is
/// `NSURLErrorDomain`, the domain's name, its code and its localized
/// description.
///
/// In the URL error domain, -1001 is a timeout, -999 a cancellation, the
/// other codes from -1200 to -1000 a TLS error and any other code a
/// network error; an error of another domain is an internal error that
/// names domain, code and message.
pub fn map_ns_error(is_url_domain: bool, domain: &str, code: i64, message: String) -> (e: Error)
    ensures
        is_url_domain && code == -1001 ==> e is Timeout,
        is_url_domain && code == -999 ==> e is Cancelled,
        is_url_domain && -1200 <= code <= -1000 && code != -1001 ==> (e matches Error::Tls { message: m } && m@
            == message@),
        is_url_domain && code != -999 && !(-1200 <= code <= -1000) ==> (e matches Error::Network {
            code: c,
            message: m,
        } && c == code && m@ == message@),
        !is_url_domain ==> (e matches Error::Internal(m) && m@ == "Domain: "@ + domain@ + ", Code: "@
            + spec_signed_decimal(code as int) + ", Message: "@ + message@),
{
    if is_url_domain {
        if code == -1001 {
            Error::Timeout
        } else if code == -999 {
            Error::Cancelled
        } else if -1200 <= code && code <= -1000 {
            Error::Tls { message }
        } else {
            Error::Network { code, message }
        }
    } else {
        let mut m = String::from_str("Domain: ");
        m.append(domain);
        m.append(", Code: ");
        let c = signed_decimal(code);
        m.append(c.as_str());
        m.append(", Message: ");
        m.append(message.as_str());
        Error::Internal(m)
    }
}

} // verus!
