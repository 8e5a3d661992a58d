use vstd::prelude::*;

verus! {

#[verifier::external_type_specification]
#[verifier::external_body]
pub struct ExIoError(std::io::Error);

#[verifier::external_type_specification]
#[verifier::external_body]
pub struct ExJsonError(serde_json::Error);

/// The errors of the services.
#[derive(Debug)]
pub enum ServiceError {
    Io(std::io::Error),
    Json(serde_json::Error),
    Systemd(String),
    Acme(String),
    Storage(String),
    Subscription(String),
    Journal(String),
    Command(String),
}

} // verus!
