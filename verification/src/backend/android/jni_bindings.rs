//! Constants handed to Cronet's Java classes.

use vstd::prelude::*;

verus! {

/// HTTP method constants.
#[derive(Clone, Copy, PartialEq, Eq, Structural, Debug)]
pub enum HttpMethod {
    /// GET
    Get,
    /// POST
    Post,
    /// PUT
    Put,
    /// DELETE
    Delete,
    /// HEAD
    Head,
    /// PATCH
    Patch,
    /// OPTIONS
    Options,
}

/// The name of a method as Cronet expects it.
pub open spec fn spec_http_method_name(m: HttpMethod) -> Seq<char> {
    match m {
        HttpMethod::Get => "GET"@,
        HttpMethod::Post => "POST"@,
        HttpMethod::Put => "PUT"@,
        HttpMethod::Delete => "DELETE"@,
        HttpMethod::Head => "HEAD"@,
        HttpMethod::Patch => "PATCH"@,
        HttpMethod::Options => "OPTIONS"@,
    }
}

impl HttpMethod {
    /// The method's name.
    pub fn as_str(&self) -> (s: &'static str)
        ensures
            s@ == spec_http_method_name(*self),
    {
        match self {
            HttpMethod::Get => "GET",
            HttpMethod::Post => "POST",
            HttpMethod::Put => "PUT",
            HttpMethod::Delete => "DELETE",
            HttpMethod::Head => "HEAD",
            HttpMethod::Patch => "PATCH",
            HttpMethod::Options => "OPTIONS",
        }
    }
}

/// Priority constants for `UrlRequest`.
#[derive(Clone, Copy, PartialEq, Eq, Structural, Debug)]
pub enum RequestPriority {
    /// 0
    Idle,
    /// 1
    Lowest,
    /// 2
    Low,
    /// 3
    Medium,
    /// 4
    Highest,
}

/// The number Cronet uses for a priority.
pub open spec fn spec_priority_value(p: RequestPriority) -> i32 {
    match p {
        RequestPriority::Idle => 0,
        RequestPriority::Lowest => 1,
        RequestPriority::Low => 2,
        RequestPriority::Medium => 3,
        RequestPriority::Highest => 4,
    }
}

impl RequestPriority {
    /// The number Cronet uses for this priority.
    pub fn value(&self) -> (v: i32)
        ensures
            v == spec_priority_value(*self),
    {
        match self {
            RequestPriority::Idle => 0,
            RequestPriority::Lowest => 1,
            RequestPriority::Low => 2,
            RequestPriority::Medium => 3,
            RequestPriority::Highest => 4,
        }
    }
}

} // verus!
