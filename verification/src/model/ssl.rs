use vstd::prelude::*;

verus! {

/// A day of the proleptic Gregorian calendar.
#[derive(Debug, Clone, Copy, PartialEq, Eq, Structural)]
pub struct CalendarDate {
    pub year: i32,
    pub month: u32,
    pub day: u32,
}

/// A TLS certificate issued for a domain.
#[derive(Debug, Clone)]
pub struct CertInfo {
    pub domain: String,
    pub issued_at: CalendarDate,
    pub expires_at: CalendarDate,
    pub cert_path: String,
    pub key_path: String,
    pub issuer: String,
    pub auto_renew: bool,
    pub renew_command: Option<String>,
}

} // verus!
