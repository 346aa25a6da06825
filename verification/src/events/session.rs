//! The first-generation session events: connection, pairing and logout.
use vstd::prelude::*;
use crate::events::reasons::{connect_failure_reason_label, reason_label, LogoutInfo};

verus! {

/// The client connected.
pub struct Connected;

/// The client disconnected.
pub struct Disconnected;

/// The session was logged out.
pub struct LoggedOut {
    pub on_connect: bool,
    pub reason: &'static str,
}

impl LoggedOut {
    /// Builds the payload of a logout; the reason is its short name.
    pub fn new(logout: LogoutInfo) -> (r: Self)
        ensures
            r.on_connect == logout.on_connect,
            r.reason@ == reason_label(logout.reason),
    {
        LoggedOut { on_connect: logout.on_connect, reason: connect_failure_reason_label(&logout.reason) }
    }
}

/// A QR code to show for pairing, valid for `timeout` seconds.
pub struct PairingQrCode {
    pub code: String,
    pub timeout: u64,
}

impl PairingQrCode {
    pub fn new(code: String, timeout: u64) -> (r: Self)
        ensures
            r.code == code,
            r.timeout == timeout,
    {
        PairingQrCode { code, timeout }
    }
}

/// A pairing code to type on the phone, valid for `timeout` seconds.
pub struct PairingCode {
    pub code: String,
    pub timeout: u64,
}

/// A QR code was scanned by a phone without multi-device support.
pub struct QrScannedWithoutMultidevice;

/// The server reports the client as outdated.
pub struct ClientOutDated;

} // verus!
