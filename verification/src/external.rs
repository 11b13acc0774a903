//! Types of outside crates that values of this library carry without
//! looking inside them.
use vstd::prelude::*;

verus! {

/// A JSON document, carried as the opaque payload or result of a job.
#[verifier::external_type_specification]
#[verifier::external_body]
pub struct ExJsonValue(serde_json::Value);

/// A job or worker identifier.
#[verifier::external_type_specification]
#[verifier::external_body]
pub struct ExUuid(uuid::Uuid);

/// An error reported by the database driver.
#[verifier::external_type_specification]
#[verifier::external_body]
pub struct ExSqlxError(sqlx::Error);

/// An error reported by the HTTP client.
#[verifier::external_type_specification]
#[verifier::external_body]
pub struct ExReqwestError(reqwest::Error);

/// An error reported while building an e-mail message.
#[verifier::external_type_specification]
#[verifier::external_body]
pub struct ExLettreError(lettre::error::Error);

/// An error reported while parsing an e-mail address.
#[verifier::external_type_specification]
#[verifier::external_body]
pub struct ExAddressError(lettre::address::AddressError);

} // verus!
