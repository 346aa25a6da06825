//! Reasons the server gives for refusing or ending a session, and their
//! textual names.
use vstd::prelude::*;
use crate::text::{push_char, push_signed_decimal, signed_decimal};

verus! {

/// Why a connection attempt failed or a session was logged out.
#[derive(Clone, Copy, Debug, PartialEq, Eq, Structural)]
pub enum ConnectFailureReason {
    BadUserAgent,
    LoggedOut,
    CatExpired,
    CatInvalid,
    ClientOutdated,
    ClientUnknown,
    Generic,
    TempBanned,
    AccountLocked,
    UnknownLogout,
    MainDeviceGone,
    NotFound,
    ServiceUnavailable,
    InternalServerError,
    Experimental,
    Unknown(i32),
}

/// The name of a reason; the fallback variant keeps its wire code.
pub open spec fn reason_text(reason: ConnectFailureReason) -> Seq<char> {
    match reason {
        ConnectFailureReason::BadUserAgent => "BadUserAgent"@,
        ConnectFailureReason::LoggedOut => "LoggedOut"@,
        ConnectFailureReason::CatExpired => "CatExpired"@,
        ConnectFailureReason::CatInvalid => "CatInvalid"@,
        ConnectFailureReason::ClientOutdated => "ClientOutdated"@,
        ConnectFailureReason::ClientUnknown => "ClientUnknown"@,
        ConnectFailureReason::Generic => "Generic"@,
        ConnectFailureReason::TempBanned => "TempBanned"@,
        ConnectFailureReason::AccountLocked => "AccountLocked"@,
        ConnectFailureReason::UnknownLogout => "Unknown"@,
        ConnectFailureReason::MainDeviceGone => "MainDeviceGone"@,
        ConnectFailureReason::NotFound => "NotFound"@,
        ConnectFailureReason::ServiceUnavailable => "ServiceUnavailable"@,
        ConnectFailureReason::InternalServerError => "InternalServerError"@,
        ConnectFailureReason::Experimental => "Experimental"@,
        ConnectFailureReason::Unknown(code) => "Unknown("@ + signed_decimal(code as int) + seq![')'],
    }
}

/// The short name of a reason, where every unknown code reads "Unknown".
pub open spec fn reason_label(reason: ConnectFailureReason) -> Seq<char> {
    match reason {
        ConnectFailureReason::Unknown(_) => "Unknown"@,
        _ => reason_text(reason),
    }
}

/// The name of a connect-failure reason, with the code of an unknown reason
/// in parentheses (for example "Unknown(499)").
pub fn connect_failure_reason_to_string(reason: &ConnectFailureReason) -> (s: String)
    ensures
        s@ == reason_text(*reason),
{
    match reason {
        ConnectFailureReason::BadUserAgent => String::from_str("BadUserAgent"),
        ConnectFailureReason::LoggedOut => String::from_str("LoggedOut"),
        ConnectFailureReason::CatExpired => String::from_str("CatExpired"),
        ConnectFailureReason::CatInvalid => String::from_str("CatInvalid"),
        ConnectFailureReason::ClientOutdated => String::from_str("ClientOutdated"),
        ConnectFailureReason::ClientUnknown => String::from_str("ClientUnknown"),
        ConnectFailureReason::Generic => String::from_str("Generic"),
        ConnectFailureReason::TempBanned => String::from_str("TempBanned"),
        ConnectFailureReason::AccountLocked => String::from_str("AccountLocked"),
        ConnectFailureReason::UnknownLogout => String::from_str("Unknown"),
        ConnectFailureReason::MainDeviceGone => String::from_str("MainDeviceGone"),
        ConnectFailureReason::NotFound => String::from_str("NotFound"),
        ConnectFailureReason::ServiceUnavailable => String::from_str("ServiceUnavailable"),
        ConnectFailureReason::InternalServerError => String::from_str("InternalServerError"),
        ConnectFailureReason::Experimental => String::from_str("Experimental"),
        ConnectFailureReason::Unknown(code) => {
            let mut s = String::from_str("Unknown(");
            push_signed_decimal(&mut s, *code as i64);
            push_char(&mut s, ')');
            s
        },
    }
}

/// The short name of a reason, as a static string; every unknown code reads
/// "Unknown".
pub fn connect_failure_reason_label(reason: &ConnectFailureReason) -> (s: &'static str)
    ensures
        s@ == reason_label(*reason),
{
    match reason {
        ConnectFailureReason::BadUserAgent => "BadUserAgent",
        ConnectFailureReason::LoggedOut => "LoggedOut",
        ConnectFailureReason::CatExpired => "CatExpired",
        ConnectFailureReason::CatInvalid => "CatInvalid",
        ConnectFailureReason::ClientOutdated => "ClientOutdated",
        ConnectFailureReason::ClientUnknown => "ClientUnknown",
        ConnectFailureReason::Generic => "Generic",
        ConnectFailureReason::TempBanned => "TempBanned",
        ConnectFailureReason::AccountLocked => "AccountLocked",
        ConnectFailureReason::UnknownLogout => "Unknown",
        ConnectFailureReason::MainDeviceGone => "MainDeviceGone",
        ConnectFailureReason::NotFound => "NotFound",
        ConnectFailureReason::ServiceUnavailable => "ServiceUnavailable",
        ConnectFailureReason::InternalServerError => "InternalServerError",
        ConnectFailureReason::Experimental => "Experimental",
        ConnectFailureReason::Unknown(_) => "Unknown",
    }
}

/// What a logout event carries.
#[derive(Clone, Copy, Debug)]
pub struct LogoutInfo {
    pub on_connect: bool,
    pub reason: ConnectFailureReason,
}

} // verus!
