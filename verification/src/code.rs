//! The status registry: a closed set of numeric status codes.
//!
//! Codes are grouped into ranges (generic, syntax, server, auth). A number,
//! once given to a code, is never given to another; `0` always means success.

use std::cmp::Ordering;
use vstd::prelude::*;
use vstd::std_specs::cmp::PartialOrdSpec;
use vstd::string::StringExecFns;

verus! {

/// A stable numeric classification of a failure.
///
/// The variants are declared in ascending order of their numbers, so the
/// derived total order agrees with the order of the numbers.
#[derive(Debug, Copy, Clone, PartialEq, Eq, Structural, Ord, Hash)]
pub enum StatusCode {
    /// Success.
    Success,
    /// Unknown error.
    Unknown,
    /// Unsupported operation.
    Unsupported,
    /// Unexpected error, maybe there is a bug.
    Unexpected,
    /// Internal server error.
    Internal,
    /// Invalid arguments.
    InvalidArguments,
    /// The task is cancelled.
    Cancelled,
    /// Syntax error.
    InvalidSyntax,
    /// Runtime resources exhausted, like creating threads failed.
    RuntimeResourcesExhausted,
    /// Rate limit exceeded.
    RateLimited,
    /// User not found.
    UserNotFound,
    /// Unsupported password type.
    UnsupportedPasswordType,
    /// User and password do not match.
    UserPasswordMismatch,
    /// No http authorization header was found.
    AuthHeaderNotFound,
    /// Invalid http authorization header.
    InvalidAuthHeader,
    /// Access denied.
    AccessDenied,
    /// Permission denied.
    PermissionDenied,
}

impl StatusCode {
    /// The number of this code.
    pub open spec fn value(self) -> u32 {
        match self {
            StatusCode::Success => 0,
            StatusCode::Unknown => 1000,
            StatusCode::Unsupported => 1001,
            StatusCode::Unexpected => 1002,
            StatusCode::Internal => 1003,
            StatusCode::InvalidArguments => 1004,
            StatusCode::Cancelled => 1005,
            StatusCode::InvalidSyntax => 2000,
            StatusCode::RuntimeResourcesExhausted => 6000,
            StatusCode::RateLimited => 6001,
            StatusCode::UserNotFound => 7000,
            StatusCode::UnsupportedPasswordType => 7001,
            StatusCode::UserPasswordMismatch => 7002,
            StatusCode::AuthHeaderNotFound => 7003,
            StatusCode::InvalidAuthHeader => 7004,
            StatusCode::AccessDenied => 7005,
            StatusCode::PermissionDenied => 7006,
        }
    }

    /// The name of this code, as it is displayed.
    pub open spec fn name(self) -> Seq<char> {
        match self {
            StatusCode::Success => "Success"@,
            StatusCode::Unknown => "Unknown"@,
            StatusCode::Unsupported => "Unsupported"@,
            StatusCode::Unexpected => "Unexpected"@,
            StatusCode::Internal => "Internal"@,
            StatusCode::InvalidArguments => "InvalidArguments"@,
            StatusCode::Cancelled => "Cancelled"@,
            StatusCode::InvalidSyntax => "InvalidSyntax"@,
            StatusCode::RuntimeResourcesExhausted => "RuntimeResourcesExhausted"@,
            StatusCode::RateLimited => "RateLimited"@,
            StatusCode::UserNotFound => "UserNotFound"@,
            StatusCode::UnsupportedPasswordType => "UnsupportedPasswordType"@,
            StatusCode::UserPasswordMismatch => "UserPasswordMismatch"@,
            StatusCode::AuthHeaderNotFound => "AuthHeaderNotFound"@,
            StatusCode::InvalidAuthHeader => "InvalidAuthHeader"@,
            StatusCode::AccessDenied => "AccessDenied"@,
            StatusCode::PermissionDenied => "PermissionDenied"@,
        }
    }

    /// Whether `code` is the number of some member of the registry.
    pub open spec fn is_member(code: u32) -> bool {
        exists|c: StatusCode| c.value() == code
    }

    /// The number of this code.
    pub fn as_u32(self) -> (n: u32)
        ensures
            n == self.value(),
    {
        match self {
            StatusCode::Success => 0,
            StatusCode::Unknown => 1000,
            StatusCode::Unsupported => 1001,
            StatusCode::Unexpected => 1002,
            StatusCode::Internal => 1003,
            StatusCode::InvalidArguments => 1004,
            StatusCode::Cancelled => 1005,
            StatusCode::InvalidSyntax => 2000,
            StatusCode::RuntimeResourcesExhausted => 6000,
            StatusCode::RateLimited => 6001,
            StatusCode::UserNotFound => 7000,
            StatusCode::UnsupportedPasswordType => 7001,
            StatusCode::UserPasswordMismatch => 7002,
            StatusCode::AuthHeaderNotFound => 7003,
            StatusCode::InvalidAuthHeader => 7004,
            StatusCode::AccessDenied => 7005,
            StatusCode::PermissionDenied => 7006,
        }
    }

    /// Whether `code` is the number that means success.
    pub fn is_success(code: u32) -> (b: bool)
        ensures
            b == (code == 0),
            b == (code == StatusCode::Success.value()),
    {
        StatusCode::Success.as_u32() == code
    }

    /// The member of the registry whose number is `code`, if there is one.
    pub fn from_u32(code: u32) -> (r: Option<StatusCode>)
        ensures
            r is Some <==> Self::is_member(code),
            r matches Some(c) ==> c.value() == code,
    {
        let found = match code {
            0 => Some(StatusCode::Success),
            1000 => Some(StatusCode::Unknown),
            1001 => Some(StatusCode::Unsupported),
            1002 => Some(StatusCode::Unexpected),
            1003 => Some(StatusCode::Internal),
            1004 => Some(StatusCode::InvalidArguments),
            1005 => Some(StatusCode::Cancelled),
            2000 => Some(StatusCode::InvalidSyntax),
            6000 => Some(StatusCode::RuntimeResourcesExhausted),
            6001 => Some(StatusCode::RateLimited),
            7000 => Some(StatusCode::UserNotFound),
            7001 => Some(StatusCode::UnsupportedPasswordType),
            7002 => Some(StatusCode::UserPasswordMismatch),
            7003 => Some(StatusCode::AuthHeaderNotFound),
            7004 => Some(StatusCode::InvalidAuthHeader),
            7005 => Some(StatusCode::AccessDenied),
            7006 => Some(StatusCode::PermissionDenied),
            _ => None,
        };
        proof {
            if let Some(c) = found {
                assert(c.value() == code);
            } else {
                assert forall|c: StatusCode| c.value() != code by {}
            }
        }
        found
    }

    /// The name of this code.
    pub fn as_str(&self) -> (s: &'static str)
        ensures
            s@ == self.name(),
    {
        match self {
            StatusCode::Success => "Success",
            StatusCode::Unknown => "Unknown",
            StatusCode::Unsupported => "Unsupported",
            StatusCode::Unexpected => "Unexpected",
            StatusCode::Internal => "Internal",
            StatusCode::InvalidArguments => "InvalidArguments",
            StatusCode::Cancelled => "Cancelled",
            StatusCode::InvalidSyntax => "InvalidSyntax",
            StatusCode::RuntimeResourcesExhausted => "RuntimeResourcesExhausted",
            StatusCode::RateLimited => "RateLimited",
            StatusCode::UserNotFound => "UserNotFound",
            StatusCode::UnsupportedPasswordType => "UnsupportedPasswordType",
            StatusCode::UserPasswordMismatch => "UserPasswordMismatch",
            StatusCode::AuthHeaderNotFound => "AuthHeaderNotFound",
            StatusCode::InvalidAuthHeader => "InvalidAuthHeader",
            StatusCode::AccessDenied => "AccessDenied",
            StatusCode::PermissionDenied => "PermissionDenied",
        }
    }

    /// The text this code is displayed as: its name.
    pub fn to_string(&self) -> (s: String)
        ensures
            s@ == self.name(),
    {
        String::from_str(self.as_str())
    }

    /// No two codes share a number.
    pub proof fn lemma_value_injective(a: StatusCode, b: StatusCode)
        requires
            a.value() == b.value(),
        ensures
            a == b,
    {
    }

    /// `<` on codes is `<` on their numbers, and it is a total order: of two
    /// different codes exactly one is below the other.
    pub proof fn lemma_order_by_value(a: StatusCode, b: StatusCode)
        ensures
            a.partial_cmp_spec(&b) == Some(Ordering::Less) <==> a.value() < b.value(),
            a.partial_cmp_spec(&b) == Some(Ordering::Equal) <==> a == b,
            a.partial_cmp_spec(&b) == Some(Ordering::Greater) <==> a.value() > b.value(),
    {
    }
}

impl PartialOrd for StatusCode {
    fn partial_cmp(&self, other: &Self) -> (r: Option<Ordering>) {
        let a = self.as_u32();
        let b = other.as_u32();
        if a < b {
            Some(Ordering::Less)
        } else if a == b {
            Some(Ordering::Equal)
        } else {
            Some(Ordering::Greater)
        }
    }
}

impl vstd::std_specs::cmp::PartialOrdSpecImpl for StatusCode {
    open spec fn obeys_partial_cmp_spec() -> bool {
        true
    }

    open spec fn partial_cmp_spec(&self, other: &Self) -> Option<Ordering> {
        if self.value() < other.value() {
            Some(Ordering::Less)
        } else if self.value() == other.value() {
            Some(Ordering::Equal)
        } else {
            Some(Ordering::Greater)
        }
    }
}

} // verus!
