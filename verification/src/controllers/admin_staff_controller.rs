//! Staff administration: the forms and the decisions around them.
use vstd::prelude::*;
use crate::text::{is_non_blank, non_blank, text_equals};
use crate::controllers::login_controller::bcrypt_verifies;
use vstd::string::StringExecFns;

verus! {

broadcast use vstd::string::group_string_axioms;

/// Form for creating a staff account.
pub struct CreateStaffForm {
    pub first_name: String,
    pub last_name: String,
    pub email: String,
    pub password: String,
}

/// Form for updating a staff account; a blank password keeps the old one.
pub struct UpdateStaffForm {
    pub user_id: i32,
    pub first_name: String,
    pub last_name: String,
    pub email: String,
    pub password: String,
    pub role: String,
}

/// Form for deleting a staff account.
pub struct DeleteStaffForm {
    pub user_id: i32,
}


/// `bcrypt::hash(password, bcrypt::DEFAULT_COST)`: a hash with a random
/// salt, `None` where the crate fails (its source fails only when the
/// operating system gives no random bytes). Claimed of a hash: its
/// length, 60 characters, which the crate's formatting always writes, and
/// that `bcrypt::verify` accepts the password against it (verify reads the
/// cost and salt back from the hash, hashes again and compares), whatever
/// salt was drawn; the value itself is chance.
#[verifier::external_body]
fn hash_password(password: &str) -> (r: Option<String>)
    ensures
        r matches Some(h) ==> h@.len() == 60 && bcrypt_verifies(password@, h@),
{
    bcrypt::hash(password, bcrypt::DEFAULT_COST).ok()
}

/// The signed-in user may change staff accounts.
pub open spec fn is_admin(user_role: Seq<char>) -> bool {
    user_role == "admin"@
}

/// The first account: it cannot be deleted and keeps the admin role.
pub open spec fn is_primary_admin(user_id: int) -> bool {
    user_id == 1
}

/// What a staff change comes to.
pub enum StaffPlan {
    /// The user is not an admin: back to the staff list.
    NotAllowed,
    /// The change would delete or demote the first account.
    PrimaryAdminProtected,
    /// No hash could be made of the new password.
    HashFailed,
    /// Carry out the change, with the new password's hash where one is set.
    Apply { password_hash: Option<String> },
}

/// Decides the creation of a staff account.
pub fn plan_staff_create(user_role: &str, form: &CreateStaffForm) -> (r: StaffPlan)
    ensures
        !is_admin(user_role@) ==> r is NotAllowed,
        is_admin(user_role@) ==> (r is HashFailed || (r matches StaffPlan::Apply { password_hash }
            && password_hash matches Some(h) && h@.len() == 60 && bcrypt_verifies(
            form.password@,
            h@,
        ))),
{
    if !text_equals(user_role, "admin") {
        return StaffPlan::NotAllowed;
    }
    match hash_password(form.password.as_str()) {
        Some(h) => StaffPlan::Apply { password_hash: Some(h) },
        None => StaffPlan::HashFailed,
    }
}

/// Decides a change of a staff account: only admins; the first account
/// keeps the admin role; a blank password keeps the old one.
pub fn plan_staff_update(user_role: &str, form: &UpdateStaffForm) -> (r: StaffPlan)
    ensures
        !is_admin(user_role@) ==> r is NotAllowed,
        is_admin(user_role@) && is_primary_admin(form.user_id as int) && form.role@ != "admin"@
            ==> r is PrimaryAdminProtected,
        is_admin(user_role@) && !(is_primary_admin(form.user_id as int) && form.role@ != "admin"@)
            && !non_blank(form.password@) ==> r == (StaffPlan::Apply { password_hash: None }),
        is_admin(user_role@) && !(is_primary_admin(form.user_id as int) && form.role@ != "admin"@)
            && non_blank(form.password@) ==> (r is HashFailed || (r matches StaffPlan::Apply {
            password_hash,
        } && password_hash matches Some(h) && h@.len() == 60 && bcrypt_verifies(
            form.password@,
            h@,
        ))),
{
    if !text_equals(user_role, "admin") {
        return StaffPlan::NotAllowed;
    }
    if form.user_id == 1 && !text_equals(form.role.as_str(), "admin") {
        return StaffPlan::PrimaryAdminProtected;
    }
    if !is_non_blank(form.password.as_str()) {
        return StaffPlan::Apply { password_hash: None };
    }
    match hash_password(form.password.as_str()) {
        Some(h) => StaffPlan::Apply { password_hash: Some(h) },
        None => StaffPlan::HashFailed,
    }
}

/// Decides the deletion of a staff account: only admins, never the first account.
pub fn plan_staff_delete(user_role: &str, form: &DeleteStaffForm) -> (r: StaffPlan)
    ensures
        !is_admin(user_role@) ==> r is NotAllowed,
        is_admin(user_role@) && is_primary_admin(form.user_id as int) ==> r is PrimaryAdminProtected,
        is_admin(user_role@) && !is_primary_admin(form.user_id as int) ==> r == (StaffPlan::Apply {
            password_hash: None,
        }),
{
    if !text_equals(user_role, "admin") {
        return StaffPlan::NotAllowed;
    }
    if form.user_id == 1 {
        return StaffPlan::PrimaryAdminProtected;
    }
    StaffPlan::Apply { password_hash: None }
}

/// What was done to a staff account, for the message on the staff list.
#[derive(Clone, Copy, PartialEq, Eq)]
pub enum StaffAction {
    Created,
    Updated,
    Deleted,
}

pub open spec fn staff_action_key(a: StaffAction) -> Seq<char> {
    match a {
        StaffAction::Created => "staff_created"@,
        StaffAction::Updated => "staff_updated"@,
        StaffAction::Deleted => "staff_deleted"@,
    }
}

/// The staff list with the message for a change of the account of `last_name`.
pub fn staff_done_url(action: StaffAction, last_name: &str) -> (r: String)
    ensures
        r@ == "/admin/staff?success="@ + staff_action_key(action) + "&last_name="@ + last_name@,
{
    let mut s = "/admin/staff?success=".to_string();
    match action {
        StaffAction::Created => s.append("staff_created"),
        StaffAction::Updated => s.append("staff_updated"),
        StaffAction::Deleted => s.append("staff_deleted"),
    }
    s.append("&last_name=");
    s.append(last_name);
    s
}

/// Where a refused staff change sends the user.
pub fn staff_refused_url(plan: &StaffPlan, deleting: bool) -> (r: String)
    ensures
        plan is PrimaryAdminProtected && deleting ==> r@
            == "/admin/staff?success=primary_admin_delete_error"@,
        plan is PrimaryAdminProtected && !deleting ==> r@
            == "/admin/staff?success=primary_admin_role_error"@,
        !(plan is PrimaryAdminProtected) ==> r@ == "/admin/staff"@,
{
    match plan {
        StaffPlan::PrimaryAdminProtected => {
            if deleting {
                "/admin/staff?success=primary_admin_delete_error".to_string()
            } else {
                "/admin/staff?success=primary_admin_role_error".to_string()
            }
        },
        _ => "/admin/staff".to_string(),
    }
}

} // verus!
