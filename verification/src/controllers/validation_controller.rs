//! Input checks of the booking, customer and staff forms.
//!
//! Every check trims the text first (but for the `@` test of e-mail
//! addresses and for passwords) and measures lengths in UTF-8 bytes.
use vstd::prelude::*;
use crate::text::{
    CharClass, all_in_class, class_allows, lemma_space_padded, space_padded, byte_len, lemma_non_blank_bytes, lemma_trimmed_idempotent, trimmed, byte_len_within, chars_of, contains_char, has_char, is_non_blank, non_blank,
    text_fits, trimmed_fits, unicode_alphabetic, unicode_alphanumeric, unicode_lowercase, unicode_numeric,
    unicode_uppercase,
};
use crate::controllers::booking_controller::{PublicBookingForm, AdminBookingForm};
use crate::controllers::customer_controller::{CreateCustomerForm, UpdateCustomerForm};
use crate::controllers::admin_staff_controller::{CreateStaffForm, UpdateStaffForm};

verus! {

broadcast use vstd::string::group_string_axioms;

/// The field that a form was refused for.
#[derive(Clone, Copy, PartialEq, Eq, Debug)]
pub enum FieldError {
    FirstName,
    LastName,
    Address,
    ZipCode,
    City,
    Phone,
    Email,
    Password,
}

impl FieldError {
    /// The message key that the pages show for this field.
    pub open spec fn code(self) -> Seq<char> {
        match self {
            FieldError::FirstName => "error-firstname-invalid"@,
            FieldError::LastName => "error-lastname-invalid"@,
            FieldError::Address => "error-address-invalid"@,
            FieldError::ZipCode => "error-zipcode-invalid"@,
            FieldError::City => "error-city-invalid"@,
            FieldError::Phone => "error-phone-invalid"@,
            FieldError::Email => "error-email-invalid"@,
            FieldError::Password => "error-password-invalid"@,
        }
    }

    /// The message key as a `String`.
    pub fn code_string(&self) -> (r: String)
        ensures
            r@ == self.code(),
    {
        match self {
            FieldError::FirstName => "error-firstname-invalid".to_string(),
            FieldError::LastName => "error-lastname-invalid".to_string(),
            FieldError::Address => "error-address-invalid".to_string(),
            FieldError::ZipCode => "error-zipcode-invalid".to_string(),
            FieldError::City => "error-city-invalid".to_string(),
            FieldError::Phone => "error-phone-invalid".to_string(),
            FieldError::Email => "error-email-invalid".to_string(),
            FieldError::Password => "error-password-invalid".to_string(),
        }
    }
}

/// First name, last name or city: 1 to 50 bytes of letters, spaces, `'` and `-`.
pub open spec fn valid_person_name(s: Seq<char>) -> bool {
    non_blank(s) && trimmed_fits(s, 0, 50, CharClass::NameChars)
}

/// Address: 1 to 100 bytes of letters, digits and spaces.
pub open spec fn valid_address(s: Seq<char>) -> bool {
    non_blank(s) && trimmed_fits(s, 0, 100, CharClass::AddressChars)
}

/// Postal code: 4 to 10 bytes of letters, digits and spaces.
pub open spec fn valid_zip_code(s: Seq<char>) -> bool {
    trimmed_fits(s, 4, 10, CharClass::AddressChars)
}

/// The characters of a phone number: a guest booking online may use
/// digits, `+` and spaces; staff may also enter hyphens.
pub open spec fn phone_class(guest: bool) -> CharClass {
    if guest {
        CharClass::PhoneChars
    } else {
        CharClass::PhoneOrHyphenChars
    }
}

/// Phone number: 8 to 15 bytes of the characters `phone_class` allows.
pub open spec fn valid_phone(s: Seq<char>, guest: bool) -> bool {
    trimmed_fits(s, 8, 15, phone_class(guest))
}

/// E-mail address: not blank, and holds an `@`.
pub open spec fn valid_email(s: Seq<char>) -> bool {
    non_blank(s) && has_char(s, '@')
}

/// Password: at least 8 bytes, with a lower-case and an upper-case letter,
/// a digit and a character that is neither letter nor digit.
pub open spec fn strong_password(p: Seq<char>) -> bool {
    &&& byte_len(p) >= 8
    &&& exists|i: int| 0 <= i < p.len() && unicode_lowercase(#[trigger] p[i])
    &&& exists|i: int| 0 <= i < p.len() && unicode_uppercase(#[trigger] p[i])
    &&& exists|i: int| 0 <= i < p.len() && unicode_numeric(#[trigger] p[i])
    &&& exists|i: int| 0 <= i < p.len() && !unicode_alphanumeric(#[trigger] p[i])
}

/// The first field of a guest's contact details that is refused, in the
/// order first name, last name, address, postal code, city, phone, e-mail;
/// `guest` tells a guest's own online booking from details entered by staff.
pub open spec fn contact_details_error(
    first_name: Seq<char>,
    last_name: Seq<char>,
    address: Seq<char>,
    zip_code: Seq<char>,
    city: Seq<char>,
    phone: Seq<char>,
    email: Seq<char>,
    guest: bool,
) -> Option<FieldError> {
    if !valid_person_name(first_name) {
        Some(FieldError::FirstName)
    } else if !valid_person_name(last_name) {
        Some(FieldError::LastName)
    } else if !valid_address(address) {
        Some(FieldError::Address)
    } else if !valid_zip_code(zip_code) {
        Some(FieldError::ZipCode)
    } else if !valid_person_name(city) {
        Some(FieldError::City)
    } else if !valid_phone(phone, guest) {
        Some(FieldError::Phone)
    } else if !valid_email(email) {
        Some(FieldError::Email)
    } else {
        None
    }
}

/// The first field of a staff account that is refused: first name, last
/// name, e-mail, then the password where `check_password` holds.
pub open spec fn staff_details_error(
    first_name: Seq<char>,
    last_name: Seq<char>,
    email: Seq<char>,
    password: Seq<char>,
    check_password: bool,
) -> Option<FieldError> {
    if !valid_person_name(first_name) {
        Some(FieldError::FirstName)
    } else if !valid_person_name(last_name) {
        Some(FieldError::LastName)
    } else if !valid_email(email) {
        Some(FieldError::Email)
    } else if check_password && !strong_password(password) {
        Some(FieldError::Password)
    } else {
        None
    }
}

/// `r` is `Ok` exactly when no field is refused, and else carries the
/// message key of the refused field.
pub open spec fn reports(r: Result<(), String>, e: Option<FieldError>) -> bool {
    match r {
        Ok(_) => e is None,
        Err(msg) => e matches Some(f) && msg@ == f.code(),
    }
}

pub open spec fn public_booking_error(form: PublicBookingForm) -> Option<FieldError> {
    contact_details_error(
        form.first_name@,
        form.last_name@,
        form.address@,
        form.zip_code@,
        form.city@,
        form.phone@,
        form.email@,
        true,
    )
}

pub open spec fn admin_booking_error(form: AdminBookingForm) -> Option<FieldError> {
    contact_details_error(
        form.first_name@,
        form.last_name@,
        form.address@,
        form.zip_code@,
        form.city@,
        form.phone@,
        form.email@,
        false,
    )
}

pub open spec fn customer_create_error(form: CreateCustomerForm) -> Option<FieldError> {
    contact_details_error(
        form.first_name@,
        form.last_name@,
        form.address@,
        form.postal_code@,
        form.city@,
        form.phone@,
        form.email@,
        false,
    )
}

pub open spec fn customer_update_error(form: UpdateCustomerForm) -> Option<FieldError> {
    contact_details_error(
        form.first_name@,
        form.last_name@,
        form.address@,
        form.postal_code@,
        form.city@,
        form.phone@,
        form.email@,
        false,
    )
}

pub open spec fn staff_create_error(form: CreateStaffForm) -> Option<FieldError> {
    staff_details_error(form.first_name@, form.last_name@, form.email@, form.password@, true)
}

/// On update, a blank password means "keep the old one" and is not checked.
pub open spec fn staff_update_error(form: UpdateStaffForm) -> Option<FieldError> {
    staff_details_error(
        form.first_name@,
        form.last_name@,
        form.email@,
        form.password@,
        non_blank(form.password@),
    )
}

fn person_name_ok(s: &str) -> (r: bool)
    ensures
        r == valid_person_name(s@),
{
    is_non_blank(s) && text_fits(s, 0, 50, CharClass::NameChars)
}

fn address_ok(s: &str) -> (r: bool)
    ensures
        r == valid_address(s@),
{
    is_non_blank(s) && text_fits(s, 0, 100, CharClass::AddressChars)
}

fn email_ok(s: &str) -> (r: bool)
    ensures
        r == valid_email(s@),
{
    is_non_blank(s) && contains_char(s, '@')
}

fn password_ok(p: &str) -> (r: bool)
    ensures
        r == strong_password(p@),
{
    let v = chars_of(p);
    assert(v@.subrange(0, v@.len() as int) =~= v@);
    let long_enough = byte_len_within(&v, 0, v.len(), 8, 999_999) || !byte_len_within(
        &v,
        0,
        v.len(),
        0,
        999_999,
    );
    let mut lower = false;
    let mut upper = false;
    let mut digit = false;
    let mut other = false;
    let mut i: usize = 0;
    while i < v.len()
        invariant
            i <= v@.len(),
            v@ == p@,
            lower == exists|j: int| 0 <= j < i && unicode_lowercase(#[trigger] v@[j]),
            upper == exists|j: int| 0 <= j < i && unicode_uppercase(#[trigger] v@[j]),
            digit == exists|j: int| 0 <= j < i && unicode_numeric(#[trigger] v@[j]),
            other == exists|j: int| 0 <= j < i && !unicode_alphanumeric(#[trigger] v@[j]),
        decreases v@.len() - i,
    {
        let c = v[i];
        lower = lower || c.is_lowercase();
        upper = upper || c.is_uppercase();
        digit = digit || c.is_numeric();
        other = other || !c.is_alphanumeric();
        i = i + 1;
    }
    long_enough && lower && upper && digit && other
}

/// The first refused field of a guest's contact details.
pub fn check_contact_details(
    first_name: &str,
    last_name: &str,
    address: &str,
    zip_code: &str,
    city: &str,
    phone: &str,
    email: &str,
    guest: bool,
) -> (r: Option<FieldError>)
    ensures
        r == contact_details_error(
            first_name@,
            last_name@,
            address@,
            zip_code@,
            city@,
            phone@,
            email@,
            guest,
        ),
{
    let phone_chars = if guest {
        CharClass::PhoneChars
    } else {
        CharClass::PhoneOrHyphenChars
    };
    if !person_name_ok(first_name) {
        Some(FieldError::FirstName)
    } else if !person_name_ok(last_name) {
        Some(FieldError::LastName)
    } else if !address_ok(address) {
        Some(FieldError::Address)
    } else if !text_fits(zip_code, 4, 10, CharClass::AddressChars) {
        Some(FieldError::ZipCode)
    } else if !person_name_ok(city) {
        Some(FieldError::City)
    } else if !text_fits(phone, 8, 15, phone_chars) {
        Some(FieldError::Phone)
    } else if !email_ok(email) {
        Some(FieldError::Email)
    } else {
        None
    }
}

/// The first refused field of a staff account.
pub fn check_staff_details(
    first_name: &str,
    last_name: &str,
    email: &str,
    password: &str,
    check_password: bool,
) -> (r: Option<FieldError>)
    ensures
        r == staff_details_error(first_name@, last_name@, email@, password@, check_password),
{
    if !person_name_ok(first_name) {
        Some(FieldError::FirstName)
    } else if !person_name_ok(last_name) {
        Some(FieldError::LastName)
    } else if !email_ok(email) {
        Some(FieldError::Email)
    } else if check_password && !password_ok(password) {
        Some(FieldError::Password)
    } else {
        None
    }
}

fn to_result(e: Option<FieldError>) -> (r: Result<(), String>)
    ensures
        reports(r, e),
{
    match e {
        None => Ok(()),
        Some(f) => Err(f.code_string()),
    }
}

/// Checks the guest's details of a public booking (no hyphen in the phone
/// number).
pub fn validate_public_booking(form: &PublicBookingForm) -> (r: Result<(), String>)
    ensures
        reports(r, public_booking_error(*form)),
{
    to_result(
        check_contact_details(
            form.first_name.as_str(),
            form.last_name.as_str(),
            form.address.as_str(),
            form.zip_code.as_str(),
            form.city.as_str(),
            form.phone.as_str(),
            form.email.as_str(),
            true,
        ),
    )
}

/// Checks the guest's details of a booking made by staff (a hyphen in the
/// phone number is allowed).
pub fn validate_admin_booking(form: &AdminBookingForm) -> (r: Result<(), String>)
    ensures
        reports(r, admin_booking_error(*form)),
{
    to_result(
        check_contact_details(
            form.first_name.as_str(),
            form.last_name.as_str(),
            form.address.as_str(),
            form.zip_code.as_str(),
            form.city.as_str(),
            form.phone.as_str(),
            form.email.as_str(),
            false,
        ),
    )
}

/// Checks a new customer.
pub fn validate_customer_create(form: &CreateCustomerForm) -> (r: Result<(), String>)
    ensures
        reports(r, customer_create_error(*form)),
{
    to_result(
        check_contact_details(
            form.first_name.as_str(),
            form.last_name.as_str(),
            form.address.as_str(),
            form.postal_code.as_str(),
            form.city.as_str(),
            form.phone.as_str(),
            form.email.as_str(),
            false,
        ),
    )
}

/// Checks a changed customer.
pub fn validate_customer_update(form: &UpdateCustomerForm) -> (r: Result<(), String>)
    ensures
        reports(r, customer_update_error(*form)),
{
    to_result(
        check_contact_details(
            form.first_name.as_str(),
            form.last_name.as_str(),
            form.address.as_str(),
            form.postal_code.as_str(),
            form.city.as_str(),
            form.phone.as_str(),
            form.email.as_str(),
            false,
        ),
    )
}

/// Checks a new staff account, password included.
pub fn validate_staff_create(form: &CreateStaffForm) -> (r: Result<(), String>)
    ensures
        reports(r, staff_create_error(*form)),
{
    to_result(
        check_staff_details(
            form.first_name.as_str(),
            form.last_name.as_str(),
            form.email.as_str(),
            form.password.as_str(),
            true,
        ),
    )
}

/// Checks a changed staff account; the password only when it is not blank.
pub fn validate_staff_update(form: &UpdateStaffForm) -> (r: Result<(), String>)
    ensures
        reports(r, staff_update_error(*form)),
{
    let check_password = is_non_blank(form.password.as_str());
    to_result(
        check_staff_details(
            form.first_name.as_str(),
            form.last_name.as_str(),
            form.email.as_str(),
            form.password.as_str(),
            check_password,
        ),
    )
}

/// The public booking form and the staff booking form apply the same rules
/// to the guest's details, but for hyphens in the phone number, which only
/// staff may enter: whatever a guest may send, staff may enter too, and
/// without a hyphen in the phone number both forms decide alike.
pub proof fn law_booking_forms_share_rules(p: PublicBookingForm, a: AdminBookingForm)
    requires
        p.first_name@ == a.first_name@,
        p.last_name@ == a.last_name@,
        p.address@ == a.address@,
        p.zip_code@ == a.zip_code@,
        p.city@ == a.city@,
        p.phone@ == a.phone@,
        p.email@ == a.email@,
    ensures
        public_booking_error(p) is None ==> admin_booking_error(a) is None,
        !has_char(trimmed(p.phone@), '-') ==> public_booking_error(p) == admin_booking_error(a),
{
    let t = trimmed(p.phone@);
    if all_in_class(t, CharClass::PhoneChars) {
        assert forall|i: int| 0 <= i < t.len() implies class_allows(
            CharClass::PhoneOrHyphenChars,
            #[trigger] t[i],
        ) by {
            assert(class_allows(CharClass::PhoneChars, t[i]));
        }
    }
    if !has_char(t, '-') && all_in_class(t, CharClass::PhoneOrHyphenChars) {
        assert forall|i: int| 0 <= i < t.len() implies class_allows(
            CharClass::PhoneChars,
            #[trigger] t[i],
        ) by {
            assert(class_allows(CharClass::PhoneOrHyphenChars, t[i]));
            assert(t[i] != '-');
        }
    }
}

/// A customer is checked by the same rules whether it is created or
/// updated, and by the same rules as the guest of a booking made by staff.
pub proof fn law_customer_forms_share_rules(
    c: CreateCustomerForm,
    u: UpdateCustomerForm,
    a: AdminBookingForm,
)
    requires
        c.first_name@ == u.first_name@ && u.first_name@ == a.first_name@,
        c.last_name@ == u.last_name@ && u.last_name@ == a.last_name@,
        c.address@ == u.address@ && u.address@ == a.address@,
        c.postal_code@ == u.postal_code@ && u.postal_code@ == a.zip_code@,
        c.city@ == u.city@ && u.city@ == a.city@,
        c.phone@ == u.phone@ && u.phone@ == a.phone@,
        c.email@ == u.email@ && u.email@ == a.email@,
    ensures
        customer_create_error(c) == customer_update_error(u),
        customer_update_error(u) == admin_booking_error(a),
{
}

/// Updating a staff account with a non-blank password checks exactly what
/// creating one checks; with a blank password it is never refused for the
/// password.
pub proof fn law_staff_update_password(c: CreateStaffForm, u: UpdateStaffForm)
    requires
        c.first_name@ == u.first_name@,
        c.last_name@ == u.last_name@,
        c.email@ == u.email@,
        c.password@ == u.password@,
    ensures
        non_blank(u.password@) ==> staff_update_error(u) == staff_create_error(c),
        !non_blank(u.password@) ==> staff_update_error(u) != Some(FieldError::Password),
{
}

/// White space around a name, address, postal code, city or phone number
/// never changes the outcome of the checks.
pub proof fn law_surrounding_space_ignored(
    first_name: Seq<char>,
    last_name: Seq<char>,
    address: Seq<char>,
    zip_code: Seq<char>,
    city: Seq<char>,
    phone: Seq<char>,
    email: Seq<char>,
    guest: bool,
)
    ensures
        contact_details_error(first_name, last_name, address, zip_code, city, phone, email, guest)
            == contact_details_error(
            trimmed(first_name),
            trimmed(last_name),
            trimmed(address),
            trimmed(zip_code),
            trimmed(city),
            trimmed(phone),
            email,
            guest,
        ),
{
    lemma_trimmed_idempotent(first_name);
    lemma_trimmed_idempotent(last_name);
    lemma_trimmed_idempotent(address);
    lemma_trimmed_idempotent(zip_code);
    lemma_trimmed_idempotent(city);
    lemma_trimmed_idempotent(phone);
}

/// A space typed before and after every field, the e-mail address
/// included, never changes the outcome of the checks.
pub proof fn law_space_padding_ignored(
    first_name: Seq<char>,
    last_name: Seq<char>,
    address: Seq<char>,
    zip_code: Seq<char>,
    city: Seq<char>,
    phone: Seq<char>,
    email: Seq<char>,
    guest: bool,
)
    ensures
        contact_details_error(
            space_padded(first_name),
            space_padded(last_name),
            space_padded(address),
            space_padded(zip_code),
            space_padded(city),
            space_padded(phone),
            space_padded(email),
            guest,
        ) == contact_details_error(first_name, last_name, address, zip_code, city, phone, email, guest),
{
    lemma_space_padded(first_name, '@');
    lemma_space_padded(last_name, '@');
    lemma_space_padded(address, '@');
    lemma_space_padded(zip_code, '@');
    lemma_space_padded(city, '@');
    lemma_space_padded(phone, '@');
    lemma_space_padded(email, '@');
}

/// Accepted contact details are within the documented bounds: names,
/// address and city are 1 to 50 (address: 100) bytes once trimmed, the
/// postal code 4 to 10, the phone number 8 to 15, and the e-mail address
/// holds an `@`.
pub proof fn law_accepted_contact_bounds(
    first_name: Seq<char>,
    last_name: Seq<char>,
    address: Seq<char>,
    zip_code: Seq<char>,
    city: Seq<char>,
    phone: Seq<char>,
    email: Seq<char>,
    guest: bool,
)
    requires
        contact_details_error(first_name, last_name, address, zip_code, city, phone, email, guest)
            is None,
    ensures
        1 <= byte_len(trimmed(first_name)) <= 50,
        1 <= byte_len(trimmed(last_name)) <= 50,
        1 <= byte_len(trimmed(address)) <= 100,
        4 <= byte_len(trimmed(zip_code)) <= 10,
        1 <= byte_len(trimmed(city)) <= 50,
        8 <= byte_len(trimmed(phone)) <= 15,
        has_char(email, '@'),
{
    lemma_non_blank_bytes(first_name);
    lemma_non_blank_bytes(last_name);
    lemma_non_blank_bytes(address);
    lemma_non_blank_bytes(city);
}


/// A first name, last name or city is accepted exactly when, once trimmed,
/// it is 1 to 50 bytes of letters, spaces, hyphens and apostrophes; so a
/// space, hyphen or apostrophe inside a name ("de Vries", "Den Haag",
/// "'s-Hertogenbosch") never refuses it, and joining two acceptable names
/// with a space keeps every character acceptable.
pub proof fn law_name_rule(s: Seq<char>, a: Seq<char>, b: Seq<char>)
    ensures
        valid_person_name(s) <==> (1 <= byte_len(trimmed(s)) <= 50 && forall|i: int|
            0 <= i < trimmed(s).len() ==> (unicode_alphabetic(#[trigger] trimmed(s)[i])
                || trimmed(s)[i] == ' ' || trimmed(s)[i] == '-' || trimmed(s)[i] == '\'')),
        all_in_class(a + seq![' '] + b, CharClass::NameChars) <==> (all_in_class(
            a,
            CharClass::NameChars,
        ) && all_in_class(b, CharClass::NameChars)),
{
    lemma_non_blank_bytes(s);
    let j = a + seq![' '] + b;
    if all_in_class(a, CharClass::NameChars) && all_in_class(b, CharClass::NameChars) {
        assert forall|i: int| 0 <= i < j.len() implies class_allows(
            CharClass::NameChars,
            #[trigger] j[i],
        ) by {
            if i < a.len() {
                assert(j[i] == a[i]);
            } else if i == a.len() {
                assert(j[i] == ' ');
            } else {
                assert(j[i] == b[i - a.len() - 1]);
            }
        }
    }
    if all_in_class(j, CharClass::NameChars) {
        assert forall|i: int| 0 <= i < a.len() implies class_allows(
            CharClass::NameChars,
            #[trigger] a[i],
        ) by {
            assert(j[i] == a[i]);
        }
        assert forall|i: int| 0 <= i < b.len() implies class_allows(
            CharClass::NameChars,
            #[trigger] b[i],
        ) by {
            assert(j[i + a.len() + 1] == b[i]);
        }
    }
}


/// The other contact fields, in plain terms: an address is 1 to 100 bytes
/// and a postal code 4 to 10 bytes of letters, digits and spaces; a phone
/// number is 8 to 15 bytes of digits, `+` and spaces, and hyphens too when
/// staff enter it; an e-mail address is not blank and holds an `@`. All
/// lengths count the trimmed text.
pub proof fn law_contact_field_rules(address: Seq<char>, zip_code: Seq<char>, phone: Seq<char>, email: Seq<char>, guest: bool)
    ensures
        valid_address(address) <==> (1 <= byte_len(trimmed(address)) <= 100 && forall|i: int|
            0 <= i < trimmed(address).len() ==> (unicode_alphabetic(#[trigger] trimmed(address)[i])
                || unicode_numeric(trimmed(address)[i]) || trimmed(address)[i] == ' ')),
        valid_zip_code(zip_code) <==> (4 <= byte_len(trimmed(zip_code)) <= 10 && forall|i: int|
            0 <= i < trimmed(zip_code).len() ==> (unicode_alphabetic(#[trigger] trimmed(zip_code)[i])
                || unicode_numeric(trimmed(zip_code)[i]) || trimmed(zip_code)[i] == ' ')),
        valid_phone(phone, guest) <==> (8 <= byte_len(trimmed(phone)) <= 15 && forall|i: int|
            0 <= i < trimmed(phone).len() ==> (unicode_numeric(#[trigger] trimmed(phone)[i])
                || trimmed(phone)[i] == '+' || trimmed(phone)[i] == ' ' || (!guest && trimmed(phone)[i] == '-'))),
        valid_email(email) <==> (trimmed(email).len() > 0 && exists|i: int| 0 <= i < email.len() && email[i] == '@'),
{
    lemma_non_blank_bytes(address);
}

} // verus!
