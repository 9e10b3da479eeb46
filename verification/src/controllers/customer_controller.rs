//! Customer administration: the forms and the decisions around them.
use vstd::prelude::*;
use vstd::string::StringExecFns;

verus! {

broadcast use vstd::string::group_string_axioms;

/// Form for creating a customer.
pub struct CreateCustomerForm {
    pub first_name: String,
    pub last_name: String,
    pub email: String,
    pub phone: String,
    pub address: String,
    pub postal_code: String,
    pub city: String,
}

/// Form for updating a customer.
pub struct UpdateCustomerForm {
    pub customer_id: i32,
    pub first_name: String,
    pub last_name: String,
    pub email: String,
    pub phone: String,
    pub address: String,
    pub postal_code: String,
    pub city: String,
}

/// Form for deleting a customer.
pub struct DeleteCustomerForm {
    pub customer_id: i32,
}


/// What the deletion of a customer comes to.
pub enum CustomerDeletion {
    /// The customer still has bookings and stays; back to the list with this address.
    Refused { redirect: String },
    /// Delete the customer, then go to this address.
    Delete { redirect: String },
}

/// Decides the deletion of a customer: one with bookings is never deleted.
pub fn plan_customer_delete(booking_count: i64, last_name: &str) -> (r: CustomerDeletion)
    ensures
        booking_count > 0 ==> (r matches CustomerDeletion::Refused { redirect } && redirect@
            == "/admin/customers?success=customer_delete_error&last_name="@ + last_name@),
        booking_count <= 0 ==> (r matches CustomerDeletion::Delete { redirect } && redirect@
            == "/admin/customers?success=customer_deleted&last_name="@ + last_name@),
{
    if booking_count > 0 {
        let mut s = "/admin/customers?success=customer_delete_error&last_name=".to_string();
        s.append(last_name);
        CustomerDeletion::Refused { redirect: s }
    } else {
        let mut s = "/admin/customers?success=customer_deleted&last_name=".to_string();
        s.append(last_name);
        CustomerDeletion::Delete { redirect: s }
    }
}

/// The customer list after a customer was changed.
pub fn customer_updated_url(last_name: &str) -> (r: String)
    ensures
        r@ == "/admin/customers?success=customer_updated&last_name="@ + last_name@,
{
    let mut s = "/admin/customers?success=customer_updated&last_name=".to_string();
    s.append(last_name);
    s
}

} // verus!
