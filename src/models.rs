//! Messages exchanged with the vendor's server, as plain data.
use vstd::prelude::*;

verus! {

#[derive(Debug, PartialEq, Eq)]
pub struct AppMetadata {
    pub provider: String,
    pub providers: Vec<String>,
}

#[derive(Debug, PartialEq, Eq)]
pub struct Identity {
    pub id: String,
    pub user_id: String,
    pub identity_data: IdentityData,
    pub provider: String,
    pub last_sign_in_at: String,
    pub created_at: String,
    pub updated_at: String,
}

#[derive(Debug, PartialEq, Eq)]
pub struct IdentityData {
    pub sub: String,
}

/// A message to the vendor from the dashboard's contact form.
#[derive(Debug, PartialEq, Eq)]
pub struct Contact {
    pub first_name: String,
    pub last_name: String,
    pub email: String,
    pub phone: Option<String>,
    pub subject: String,
    pub message: String,
}

/// A request for the editor build of a platform.
#[derive(Debug, PartialEq, Eq)]
pub struct AppsRequest {
    pub os_arch: String,
}

} // verus!
