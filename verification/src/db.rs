//! Rows read from the database.
use vstd::prelude::*;

verus! {

#[verifier::external_type_specification]
#[verifier::external_body]
pub struct ExNaiveDateTime(chrono::NaiveDateTime);

/// An accommodation type with its number of units.
pub struct Accommodation {
    pub id: i32,
    pub name: String,
    pub total_units: i32,
    pub price_per_night: String,
    pub created_at: chrono::NaiveDateTime,
}

/// A customer as the customer list shows it.
pub struct CustomerRow {
    pub id: i32,
    pub first_name: String,
    pub last_name: String,
    pub email: String,
    pub phone: Option<String>,
    pub address: Option<String>,
    pub postal_code: Option<String>,
    pub city: Option<String>,
}

/// A staff account as the staff list shows it.
pub struct StaffRow {
    pub id: i32,
    pub first_name: String,
    pub last_name: String,
    pub email: String,
    pub role: String,
}

} // verus!
