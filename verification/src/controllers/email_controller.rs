//! The texts of the e-mails to guests. Sending them is left to the caller.
use vstd::prelude::*;
use crate::text::{
    contains_text, decimal_string, decimal_text, lemma_occurs_extend, lemma_occurs_middle, occurs_at,
};
use vstd::string::StringExecFns;

verus! {

broadcast use vstd::string::group_string_axioms;

/// An amount in whole euros with two decimals (what `{:.2}` shows of it).
pub open spec fn money_text(euros: int) -> Seq<char> {
    decimal_text(euros) + ".00"@
}

/// An amount in whole euros with two decimals.
pub fn money_string(euros: i64) -> (r: String)
    ensures
        r@ == money_text(euros as int),
{
    let mut s = decimal_string(euros);
    s.append(".00");
    s
}

/// The link that pays a booking.
pub fn payment_link(app_url: &str, payment_token: &str) -> (r: String)
    ensures
        r@ == app_url@ + "/payment/"@ + payment_token@ + "/confirm"@,
{
    let mut s = String::new();
    s.append(app_url);
    s.append("/payment/");
    s.append(payment_token);
    s.append("/confirm");
    s
}

/// The link that cancels a booking.
pub fn cancel_link(app_url: &str, cancel_token: &str) -> (r: String)
    ensures
        r@ == app_url@ + "/cancel/"@ + cancel_token@,
{
    let mut s = String::new();
    s.append(app_url);
    s.append("/cancel/");
    s.append(cancel_token);
    s
}

/// The invoice paragraph of the status e-mail: empty without a number.
pub open spec fn invoice_paragraph(invoice_number: Seq<char>) -> Seq<char> {
    if invoice_number.len() == 0 {
        Seq::<char>::empty()
    } else {
        "<p>
                    Invoice number:
                    <strong>"@ + invoice_number + "</strong>
                </p>"@
    }
}

/// The invoice paragraph of the status e-mail.
pub fn invoice_paragraph_string(invoice_number: &str) -> (r: String)
    ensures
        r@ == invoice_paragraph(invoice_number@),
{
    if invoice_number.is_empty() {
        String::new()
    } else {
        let mut s = String::new();
        s.append("<p>
                    Invoice number:
                    <strong>");
        s.append(invoice_number);
        s.append("</strong>
                </p>");
        s
    }
}

/// Booking confirmation: the guest's details, the stay, the prices and the links to pay and to cancel.
pub open spec fn confirmation_text(
    first_name: Seq<char>,
    last_name: Seq<char>,
    phone: Seq<char>,
    address: Seq<char>,
    zip_code: Seq<char>,
    city: Seq<char>,
    accommodation_name: Seq<char>,
    check_in: Seq<char>,
    check_out: Seq<char>,
    payment_link: Seq<char>,
    cancel_link: Seq<char>,
    nights: int,
    price_per_night: int,
    total_price: int,
) -> Seq<char> {
    "<html>
        <body style='font-family: Arial, sans-serif;'>
            <p>Dear "@
        + first_name
        + ",</p>

            <p>Thank you for your booking at Camping de Colibri.</p>

            <h3>Your booking overview:</h3>

            <p>
                "@
        + first_name
        + " "@
        + last_name
        + "<br>
                "@
        + address
        + "<br>
                "@
        + zip_code
        + " "@
        + city
        + "<br>
                Phone: "@
        + phone
        + "
            </p>

            <p>You booked a <strong>"@
        + accommodation_name
        + "</strong>.</p>

            <p>
                From <strong>"@
        + check_in
        + "</strong> until <strong>"@
        + check_out
        + "</strong><br>
                <small>("@
        + decimal_text(nights)
        + " nights at €"@
        + money_text(price_per_night)
        + " per night)</small>
            </p>

            <p><strong>Total amount: €"@
        + money_text(total_price)
        + "</strong></p>

            <p>
                <strong>Payment:</strong><br>
                <a href='"@
        + payment_link
        + "'>Click here to pay</a>
            </p>

            <p>
                <strong>Cancel booking:</strong><br>
                <a href='"@
        + cancel_link
        + "'>Click here to cancel</a>
            </p>

            <p>
                Kind regards,<br>
                Team Colibri
            </p>
        </body>
        </html>"@
}

/// The body of the e-mail: booking confirmation: the guest's details, the stay, the prices and the links to pay and to cancel.
pub fn confirmation_email_body(
    first_name: &str,
    last_name: &str,
    phone: &str,
    address: &str,
    zip_code: &str,
    city: &str,
    accommodation_name: &str,
    check_in: &str,
    check_out: &str,
    payment_link: &str,
    cancel_link: &str,
    nights: i64,
    price_per_night: i64,
    total_price: i64,
) -> (r: String)
    ensures
        r@ == confirmation_text(
            first_name@,
            last_name@,
            phone@,
            address@,
            zip_code@,
            city@,
            accommodation_name@,
            check_in@,
            check_out@,
            payment_link@,
            cancel_link@,
            nights as int,
            price_per_night as int,
            total_price as int,
        ),
{
    let mut s = String::new();
    s.append("<html>
        <body style='font-family: Arial, sans-serif;'>
            <p>Dear ");
    s.append(first_name);
    s.append(",</p>

            <p>Thank you for your booking at Camping de Colibri.</p>

            <h3>Your booking overview:</h3>

            <p>
                ");
    s.append(first_name);
    s.append(" ");
    s.append(last_name);
    s.append("<br>
                ");
    s.append(address);
    s.append("<br>
                ");
    s.append(zip_code);
    s.append(" ");
    s.append(city);
    s.append("<br>
                Phone: ");
    s.append(phone);
    s.append("
            </p>

            <p>You booked a <strong>");
    s.append(accommodation_name);
    s.append("</strong>.</p>

            <p>
                From <strong>");
    s.append(check_in);
    s.append("</strong> until <strong>");
    s.append(check_out);
    s.append("</strong><br>
                <small>(");
    let t10 = decimal_string(nights);
    s.append(t10.as_str());
    s.append(" nights at €");
    let t11 = money_string(price_per_night);
    s.append(t11.as_str());
    s.append(" per night)</small>
            </p>

            <p><strong>Total amount: €");
    let t12 = money_string(total_price);
    s.append(t12.as_str());
    s.append("</strong></p>

            <p>
                <strong>Payment:</strong><br>
                <a href='");
    s.append(payment_link);
    s.append("'>Click here to pay</a>
            </p>

            <p>
                <strong>Cancel booking:</strong><br>
                <a href='");
    s.append(cancel_link);
    s.append("'>Click here to cancel</a>
            </p>

            <p>
                Kind regards,<br>
                Team Colibri
            </p>
        </body>
        </html>");
    s
}

/// Payment received: invoice number and amount.
pub open spec fn invoice_text(
    first_name: Seq<char>,
    invoice_number: Seq<char>,
    total_price: Seq<char>,
) -> Seq<char> {
    "<html>
        <body style='font-family: Arial, sans-serif;'>
            <p>Dear "@
        + first_name
        + ",</p>

            <p>Your payment has been successfully received.</p>

            <p>
                Invoice number: <strong>"@
        + invoice_number
        + "</strong><br>
                Total amount: <strong>€"@
        + total_price
        + "</strong>
            </p>

            <p>Thank you for your booking at Camping de Colibri.</p>

            <p>
                Kind regards,<br>
                Team Colibri
            </p>
        </body>
        </html>"@
}

/// The body of the e-mail: payment received: invoice number and amount.
pub fn invoice_email_body(
    first_name: &str,
    invoice_number: &str,
    total_price: &str,
) -> (r: String)
    ensures
        r@ == invoice_text(
            first_name@,
            invoice_number@,
            total_price@,
        ),
{
    let mut s = String::new();
    s.append("<html>
        <body style='font-family: Arial, sans-serif;'>
            <p>Dear ");
    s.append(first_name);
    s.append(",</p>

            <p>Your payment has been successfully received.</p>

            <p>
                Invoice number: <strong>");
    s.append(invoice_number);
    s.append("</strong><br>
                Total amount: <strong>€");
    s.append(total_price);
    s.append("</strong>
            </p>

            <p>Thank you for your booking at Camping de Colibri.</p>

            <p>
                Kind regards,<br>
                Team Colibri
            </p>
        </body>
        </html>");
    s
}

/// Cancellation confirmed, with the invoice number.
pub open spec fn cancel_confirmation_text(
    first_name: Seq<char>,
    invoice_number: Seq<char>,
) -> Seq<char> {
    "<html>
        <body style='font-family: Arial, sans-serif;'>
            <p>Dear "@
        + first_name
        + ",</p>

            <p>Your booking at Camping de Colibri has been successfully cancelled.</p>

            <p>Invoice number: <strong>"@
        + invoice_number
        + "</strong></p>

            <p>We hope to welcome you another time.</p>

            <p>
                Kind regards,<br>
                Team Colibri
            </p>
        </body>
        </html>"@
}

/// The body of the e-mail: cancellation confirmed, with the invoice number.
pub fn cancel_confirmation_email_body(
    first_name: &str,
    invoice_number: &str,
) -> (r: String)
    ensures
        r@ == cancel_confirmation_text(
            first_name@,
            invoice_number@,
        ),
{
    let mut s = String::new();
    s.append("<html>
        <body style='font-family: Arial, sans-serif;'>
            <p>Dear ");
    s.append(first_name);
    s.append(",</p>

            <p>Your booking at Camping de Colibri has been successfully cancelled.</p>

            <p>Invoice number: <strong>");
    s.append(invoice_number);
    s.append("</strong></p>

            <p>We hope to welcome you another time.</p>

            <p>
                Kind regards,<br>
                Team Colibri
            </p>
        </body>
        </html>");
    s
}

/// Booking expired for want of payment.
pub open spec fn booking_expired_text(
    first_name: Seq<char>,
) -> Seq<char> {
    "<html>
        <body style='font-family: Arial, sans-serif;'>

            <p>Dear "@
        + first_name
        + ",</p>

            <p>
                Your booking has expired because payment was not received within 7 days.
            </p>

            <p>
                The reservation has been cancelled automatically and the accommodation has been released.
            </p>

            <p>
                Kind regards,<br>
                Team Colibri
            </p>

        </body>
        </html>"@
}

/// The body of the e-mail: booking expired for want of payment.
pub fn booking_expired_email_body(
    first_name: &str,
) -> (r: String)
    ensures
        r@ == booking_expired_text(
            first_name@,
        ),
{
    let mut s = String::new();
    s.append("<html>
        <body style='font-family: Arial, sans-serif;'>

            <p>Dear ");
    s.append(first_name);
    s.append(",</p>

            <p>
                Your booking has expired because payment was not received within 7 days.
            </p>

            <p>
                The reservation has been cancelled automatically and the accommodation has been released.
            </p>

            <p>
                Kind regards,<br>
                Team Colibri
            </p>

        </body>
        </html>");
    s
}

/// Booking changed: accommodation, stay and prices.
pub open spec fn booking_update_text(
    first_name: Seq<char>,
    accommodation_name: Seq<char>,
    check_in: Seq<char>,
    check_out: Seq<char>,
    nights: int,
    price_per_night: int,
    total_price: int,
) -> Seq<char> {
    "<html>
        <body style='font-family: Arial, sans-serif;'>

            <p>Dear "@
        + first_name
        + ",</p>

            <p>
                Your booking at Camping de Colibri
                has been updated.
            </p>

            <h3>Updated booking overview:</h3>

            <p>
                Accommodation:
                <strong>"@
        + accommodation_name
        + "</strong>
            </p>

            <p>
                From <strong>"@
        + check_in
        + "</strong>
                until <strong>"@
        + check_out
        + "</strong><br>

                <small>
                    ("@
        + decimal_text(nights)
        + " nights at €"@
        + money_text(price_per_night)
        + " per night)
                </small>
            </p>

            <p>
                <strong>
                    Total amount: €"@
        + money_text(total_price)
        + "
                </strong>
            </p>

            <p>
                Kind regards,<br>
                Team Colibri
            </p>

        </body>
        </html>"@
}

/// The body of the e-mail: booking changed: accommodation, stay and prices.
pub fn booking_update_email_body(
    first_name: &str,
    accommodation_name: &str,
    check_in: &str,
    check_out: &str,
    nights: i64,
    price_per_night: i64,
    total_price: i64,
) -> (r: String)
    ensures
        r@ == booking_update_text(
            first_name@,
            accommodation_name@,
            check_in@,
            check_out@,
            nights as int,
            price_per_night as int,
            total_price as int,
        ),
{
    let mut s = String::new();
    s.append("<html>
        <body style='font-family: Arial, sans-serif;'>

            <p>Dear ");
    s.append(first_name);
    s.append(",</p>

            <p>
                Your booking at Camping de Colibri
                has been updated.
            </p>

            <h3>Updated booking overview:</h3>

            <p>
                Accommodation:
                <strong>");
    s.append(accommodation_name);
    s.append("</strong>
            </p>

            <p>
                From <strong>");
    s.append(check_in);
    s.append("</strong>
                until <strong>");
    s.append(check_out);
    s.append("</strong><br>

                <small>
                    (");
    let t4 = decimal_string(nights);
    s.append(t4.as_str());
    s.append(" nights at €");
    let t5 = money_string(price_per_night);
    s.append(t5.as_str());
    s.append(" per night)
                </small>
            </p>

            <p>
                <strong>
                    Total amount: €");
    let t6 = money_string(total_price);
    s.append(t6.as_str());
    s.append("
                </strong>
            </p>

            <p>
                Kind regards,<br>
                Team Colibri
            </p>

        </body>
        </html>");
    s
}

/// Status changed, with the invoice paragraph where there is an invoice number.
pub open spec fn booking_status_text(
    first_name: Seq<char>,
    status: Seq<char>,
    invoice_number: Seq<char>,
) -> Seq<char> {
    "<html>
        <body style='font-family: Arial, sans-serif;'>

            <p>Dear "@
        + first_name
        + ",</p>

            <p>
                The status of your booking at Camping de Colibri
                has been updated.
            </p>

            <p>
                New booking status:
                <strong>"@
        + status
        + "</strong>
            </p>

            "@
        + invoice_paragraph(invoice_number)
        + "

            <p>
                Kind regards,<br>
                Team Colibri
            </p>

        </body>
        </html>"@
}

/// The body of the e-mail: status changed, with the invoice paragraph where there is an invoice number.
pub fn booking_status_email_body(
    first_name: &str,
    status: &str,
    invoice_number: &str,
) -> (r: String)
    ensures
        r@ == booking_status_text(
            first_name@,
            status@,
            invoice_number@,
        ),
{
    let mut s = String::new();
    s.append("<html>
        <body style='font-family: Arial, sans-serif;'>

            <p>Dear ");
    s.append(first_name);
    s.append(",</p>

            <p>
                The status of your booking at Camping de Colibri
                has been updated.
            </p>

            <p>
                New booking status:
                <strong>");
    s.append(status);
    s.append("</strong>
            </p>

            ");
    let t2 = invoice_paragraph_string(invoice_number);
    s.append(t2.as_str());
    s.append("

            <p>
                Kind regards,<br>
                Team Colibri
            </p>

        </body>
        </html>");
    s
}

/// One run of the text, found in place after the pieces before it.
proof fn confirmation_part_1(first_name: Seq<char>, last_name: Seq<char>, phone: Seq<char>, address: Seq<char>, zip_code: Seq<char>, city: Seq<char>, accommodation_name: Seq<char>, check_in: Seq<char>, check_out: Seq<char>, payment_link: Seq<char>, cancel_link: Seq<char>, nights: int, price_per_night: int, total_price: int)
    ensures
        contains_text(confirmation_text(first_name, last_name, phone, address, zip_code, city, accommodation_name, check_in, check_out, payment_link, cancel_link, nights, price_per_night, total_price), "From <strong>"@ + check_in + "</strong> until <strong>"@ + check_out),
{
    reveal_strlit("</strong>.</p>\n\n            <p>\n                From <strong>");
    reveal_strlit("</strong>.</p>\n\n            <p>\n                ");
    reveal_strlit("From <strong>");
    assert("</strong>.</p>\n\n            <p>\n                From <strong>"@ =~= "</strong>.</p>\n\n            <p>\n                "@ + "From <strong>"@);
    let x0 = "<html>
        <body style='font-family: Arial, sans-serif;'>
            <p>Dear "@ + first_name + ",</p>

            <p>Thank you for your booking at Camping de Colibri.</p>

            <h3>Your booking overview:</h3>

            <p>
                "@ + first_name + " "@ + last_name + "<br>
                "@ + address + "<br>
                "@ + zip_code + " "@ + city + "<br>
                Phone: "@ + phone + "
            </p>

            <p>You booked a <strong>"@ + accommodation_name;
    let n = "From <strong>"@ + check_in + "</strong> until <strong>"@ + check_out;
    let t = x0 + "</strong>.</p>

            <p>
                From <strong>"@ + check_in + "</strong> until <strong>"@ + check_out;
    assert(t =~= x0 + "</strong>.</p>\n\n            <p>\n                "@ + n + Seq::<char>::empty());
    lemma_occurs_middle(x0 + "</strong>.</p>\n\n            <p>\n                "@, n, Seq::<char>::empty());
    let k = (x0 + "</strong>.</p>\n\n            <p>\n                "@).len() as int;
    assert(occurs_at(t, n, k));
    let t20 = t + "</strong><br>
                <small>("@;
    lemma_occurs_extend(t, "</strong><br>
                <small>("@, n, k);
    let t21 = t20 + decimal_text(nights);
    lemma_occurs_extend(t20, decimal_text(nights), n, k);
    let t22 = t21 + " nights at €"@;
    lemma_occurs_extend(t21, " nights at €"@, n, k);
    let t23 = t22 + money_text(price_per_night);
    lemma_occurs_extend(t22, money_text(price_per_night), n, k);
    let t24 = t23 + " per night)</small>
            </p>

            <p><strong>Total amount: €"@;
    lemma_occurs_extend(t23, " per night)</small>
            </p>

            <p><strong>Total amount: €"@, n, k);
    let t25 = t24 + money_text(total_price);
    lemma_occurs_extend(t24, money_text(total_price), n, k);
    let t26 = t25 + "</strong></p>

            <p>
                <strong>Payment:</strong><br>
                <a href='"@;
    lemma_occurs_extend(t25, "</strong></p>

            <p>
                <strong>Payment:</strong><br>
                <a href='"@, n, k);
    let t27 = t26 + payment_link;
    lemma_occurs_extend(t26, payment_link, n, k);
    let t28 = t27 + "'>Click here to pay</a>
            </p>

            <p>
                <strong>Cancel booking:</strong><br>
                <a href='"@;
    lemma_occurs_extend(t27, "'>Click here to pay</a>
            </p>

            <p>
                <strong>Cancel booking:</strong><br>
                <a href='"@, n, k);
    let t29 = t28 + cancel_link;
    lemma_occurs_extend(t28, cancel_link, n, k);
    let t30 = t29 + "'>Click here to cancel</a>
            </p>

            <p>
                Kind regards,<br>
                Team Colibri
            </p>
        </body>
        </html>"@;
    lemma_occurs_extend(t29, "'>Click here to cancel</a>
            </p>

            <p>
                Kind regards,<br>
                Team Colibri
            </p>
        </body>
        </html>"@, n, k);
    assert(confirmation_text(first_name, last_name, phone, address, zip_code, city, accommodation_name, check_in, check_out, payment_link, cancel_link, nights, price_per_night, total_price) == t30);
}

/// One run of the text, found in place after the pieces before it.
proof fn confirmation_part_2(first_name: Seq<char>, last_name: Seq<char>, phone: Seq<char>, address: Seq<char>, zip_code: Seq<char>, city: Seq<char>, accommodation_name: Seq<char>, check_in: Seq<char>, check_out: Seq<char>, payment_link: Seq<char>, cancel_link: Seq<char>, nights: int, price_per_night: int, total_price: int)
    ensures
        contains_text(confirmation_text(first_name, last_name, phone, address, zip_code, city, accommodation_name, check_in, check_out, payment_link, cancel_link, nights, price_per_night, total_price), "("@ + decimal_text(nights) + " nights at €"@ + money_text(price_per_night) + " per night)"@),
{
    reveal_strlit("</strong><br>\n                <small>(");
    reveal_strlit("</strong><br>\n                <small>");
    reveal_strlit("(");
    assert("</strong><br>\n                <small>("@ =~= "</strong><br>\n                <small>"@ + "("@);
    let x0 = "<html>
        <body style='font-family: Arial, sans-serif;'>
            <p>Dear "@ + first_name + ",</p>

            <p>Thank you for your booking at Camping de Colibri.</p>

            <h3>Your booking overview:</h3>

            <p>
                "@ + first_name + " "@ + last_name + "<br>
                "@ + address + "<br>
                "@ + zip_code + " "@ + city + "<br>
                Phone: "@ + phone + "
            </p>

            <p>You booked a <strong>"@ + accommodation_name + "</strong>.</p>

            <p>
                From <strong>"@ + check_in + "</strong> until <strong>"@ + check_out;
    reveal_strlit(" per night)</small>\n            </p>\n\n            <p><strong>Total amount: €");
    reveal_strlit(" per night)");
    reveal_strlit("</small>\n            </p>\n\n            <p><strong>Total amount: €");
    assert(" per night)</small>\n            </p>\n\n            <p><strong>Total amount: €"@ =~= " per night)"@ + "</small>\n            </p>\n\n            <p><strong>Total amount: €"@);
    let n = "("@ + decimal_text(nights) + " nights at €"@ + money_text(price_per_night) + " per night)"@;
    let t = x0 + "</strong><br>
                <small>("@ + decimal_text(nights) + " nights at €"@ + money_text(price_per_night) + " per night)</small>
            </p>

            <p><strong>Total amount: €"@;
    assert(t =~= x0 + "</strong><br>\n                <small>"@ + n + "</small>\n            </p>\n\n            <p><strong>Total amount: €"@);
    lemma_occurs_middle(x0 + "</strong><br>\n                <small>"@, n, "</small>\n            </p>\n\n            <p><strong>Total amount: €"@);
    let k = (x0 + "</strong><br>\n                <small>"@).len() as int;
    assert(occurs_at(t, n, k));
    let t25 = t + money_text(total_price);
    lemma_occurs_extend(t, money_text(total_price), n, k);
    let t26 = t25 + "</strong></p>

            <p>
                <strong>Payment:</strong><br>
                <a href='"@;
    lemma_occurs_extend(t25, "</strong></p>

            <p>
                <strong>Payment:</strong><br>
                <a href='"@, n, k);
    let t27 = t26 + payment_link;
    lemma_occurs_extend(t26, payment_link, n, k);
    let t28 = t27 + "'>Click here to pay</a>
            </p>

            <p>
                <strong>Cancel booking:</strong><br>
                <a href='"@;
    lemma_occurs_extend(t27, "'>Click here to pay</a>
            </p>

            <p>
                <strong>Cancel booking:</strong><br>
                <a href='"@, n, k);
    let t29 = t28 + cancel_link;
    lemma_occurs_extend(t28, cancel_link, n, k);
    let t30 = t29 + "'>Click here to cancel</a>
            </p>

            <p>
                Kind regards,<br>
                Team Colibri
            </p>
        </body>
        </html>"@;
    lemma_occurs_extend(t29, "'>Click here to cancel</a>
            </p>

            <p>
                Kind regards,<br>
                Team Colibri
            </p>
        </body>
        </html>"@, n, k);
    assert(confirmation_text(first_name, last_name, phone, address, zip_code, city, accommodation_name, check_in, check_out, payment_link, cancel_link, nights, price_per_night, total_price) == t30);
}

/// One run of the text, found in place after the pieces before it.
proof fn confirmation_part_3(first_name: Seq<char>, last_name: Seq<char>, phone: Seq<char>, address: Seq<char>, zip_code: Seq<char>, city: Seq<char>, accommodation_name: Seq<char>, check_in: Seq<char>, check_out: Seq<char>, payment_link: Seq<char>, cancel_link: Seq<char>, nights: int, price_per_night: int, total_price: int)
    ensures
        contains_text(confirmation_text(first_name, last_name, phone, address, zip_code, city, accommodation_name, check_in, check_out, payment_link, cancel_link, nights, price_per_night, total_price), "Total amount: €"@ + money_text(total_price)),
{
    reveal_strlit(" per night)</small>\n            </p>\n\n            <p><strong>Total amount: €");
    reveal_strlit(" per night)</small>\n            </p>\n\n            <p><strong>");
    reveal_strlit("Total amount: €");
    assert(" per night)</small>\n            </p>\n\n            <p><strong>Total amount: €"@ =~= " per night)</small>\n            </p>\n\n            <p><strong>"@ + "Total amount: €"@);
    let x0 = "<html>
        <body style='font-family: Arial, sans-serif;'>
            <p>Dear "@ + first_name + ",</p>

            <p>Thank you for your booking at Camping de Colibri.</p>

            <h3>Your booking overview:</h3>

            <p>
                "@ + first_name + " "@ + last_name + "<br>
                "@ + address + "<br>
                "@ + zip_code + " "@ + city + "<br>
                Phone: "@ + phone + "
            </p>

            <p>You booked a <strong>"@ + accommodation_name + "</strong>.</p>

            <p>
                From <strong>"@ + check_in + "</strong> until <strong>"@ + check_out + "</strong><br>
                <small>("@ + decimal_text(nights) + " nights at €"@ + money_text(price_per_night);
    let n = "Total amount: €"@ + money_text(total_price);
    let t = x0 + " per night)</small>
            </p>

            <p><strong>Total amount: €"@ + money_text(total_price);
    assert(t =~= x0 + " per night)</small>\n            </p>\n\n            <p><strong>"@ + n + Seq::<char>::empty());
    lemma_occurs_middle(x0 + " per night)</small>\n            </p>\n\n            <p><strong>"@, n, Seq::<char>::empty());
    let k = (x0 + " per night)</small>\n            </p>\n\n            <p><strong>"@).len() as int;
    assert(occurs_at(t, n, k));
    let t26 = t + "</strong></p>

            <p>
                <strong>Payment:</strong><br>
                <a href='"@;
    lemma_occurs_extend(t, "</strong></p>

            <p>
                <strong>Payment:</strong><br>
                <a href='"@, n, k);
    let t27 = t26 + payment_link;
    lemma_occurs_extend(t26, payment_link, n, k);
    let t28 = t27 + "'>Click here to pay</a>
            </p>

            <p>
                <strong>Cancel booking:</strong><br>
                <a href='"@;
    lemma_occurs_extend(t27, "'>Click here to pay</a>
            </p>

            <p>
                <strong>Cancel booking:</strong><br>
                <a href='"@, n, k);
    let t29 = t28 + cancel_link;
    lemma_occurs_extend(t28, cancel_link, n, k);
    let t30 = t29 + "'>Click here to cancel</a>
            </p>

            <p>
                Kind regards,<br>
                Team Colibri
            </p>
        </body>
        </html>"@;
    lemma_occurs_extend(t29, "'>Click here to cancel</a>
            </p>

            <p>
                Kind regards,<br>
                Team Colibri
            </p>
        </body>
        </html>"@, n, k);
    assert(confirmation_text(first_name, last_name, phone, address, zip_code, city, accommodation_name, check_in, check_out, payment_link, cancel_link, nights, price_per_night, total_price) == t30);
}

/// One run of the text, found in place after the pieces before it.
proof fn confirmation_part_4(first_name: Seq<char>, last_name: Seq<char>, phone: Seq<char>, address: Seq<char>, zip_code: Seq<char>, city: Seq<char>, accommodation_name: Seq<char>, check_in: Seq<char>, check_out: Seq<char>, payment_link: Seq<char>, cancel_link: Seq<char>, nights: int, price_per_night: int, total_price: int)
    ensures
        contains_text(confirmation_text(first_name, last_name, phone, address, zip_code, city, accommodation_name, check_in, check_out, payment_link, cancel_link, nights, price_per_night, total_price), "<a href='"@ + payment_link + "'>Click here to pay</a>"@),
{
    reveal_strlit("</strong></p>\n\n            <p>\n                <strong>Payment:</strong><br>\n                <a href='");
    reveal_strlit("</strong></p>\n\n            <p>\n                <strong>Payment:</strong><br>\n                ");
    reveal_strlit("<a href='");
    assert("</strong></p>\n\n            <p>\n                <strong>Payment:</strong><br>\n                <a href='"@ =~= "</strong></p>\n\n            <p>\n                <strong>Payment:</strong><br>\n                "@ + "<a href='"@);
    let x0 = "<html>
        <body style='font-family: Arial, sans-serif;'>
            <p>Dear "@ + first_name + ",</p>

            <p>Thank you for your booking at Camping de Colibri.</p>

            <h3>Your booking overview:</h3>

            <p>
                "@ + first_name + " "@ + last_name + "<br>
                "@ + address + "<br>
                "@ + zip_code + " "@ + city + "<br>
                Phone: "@ + phone + "
            </p>

            <p>You booked a <strong>"@ + accommodation_name + "</strong>.</p>

            <p>
                From <strong>"@ + check_in + "</strong> until <strong>"@ + check_out + "</strong><br>
                <small>("@ + decimal_text(nights) + " nights at €"@ + money_text(price_per_night) + " per night)</small>
            </p>

            <p><strong>Total amount: €"@ + money_text(total_price);
    reveal_strlit("'>Click here to pay</a>\n            </p>\n\n            <p>\n                <strong>Cancel booking:</strong><br>\n                <a href='");
    reveal_strlit("'>Click here to pay</a>");
    reveal_strlit("\n            </p>\n\n            <p>\n                <strong>Cancel booking:</strong><br>\n                <a href='");
    assert("'>Click here to pay</a>\n            </p>\n\n            <p>\n                <strong>Cancel booking:</strong><br>\n                <a href='"@ =~= "'>Click here to pay</a>"@ + "\n            </p>\n\n            <p>\n                <strong>Cancel booking:</strong><br>\n                <a href='"@);
    let n = "<a href='"@ + payment_link + "'>Click here to pay</a>"@;
    let t = x0 + "</strong></p>

            <p>
                <strong>Payment:</strong><br>
                <a href='"@ + payment_link + "'>Click here to pay</a>
            </p>

            <p>
                <strong>Cancel booking:</strong><br>
                <a href='"@;
    assert(t =~= x0 + "</strong></p>\n\n            <p>\n                <strong>Payment:</strong><br>\n                "@ + n + "\n            </p>\n\n            <p>\n                <strong>Cancel booking:</strong><br>\n                <a href='"@);
    lemma_occurs_middle(x0 + "</strong></p>\n\n            <p>\n                <strong>Payment:</strong><br>\n                "@, n, "\n            </p>\n\n            <p>\n                <strong>Cancel booking:</strong><br>\n                <a href='"@);
    let k = (x0 + "</strong></p>\n\n            <p>\n                <strong>Payment:</strong><br>\n                "@).len() as int;
    assert(occurs_at(t, n, k));
    let t29 = t + cancel_link;
    lemma_occurs_extend(t, cancel_link, n, k);
    let t30 = t29 + "'>Click here to cancel</a>
            </p>

            <p>
                Kind regards,<br>
                Team Colibri
            </p>
        </body>
        </html>"@;
    lemma_occurs_extend(t29, "'>Click here to cancel</a>
            </p>

            <p>
                Kind regards,<br>
                Team Colibri
            </p>
        </body>
        </html>"@, n, k);
    assert(confirmation_text(first_name, last_name, phone, address, zip_code, city, accommodation_name, check_in, check_out, payment_link, cancel_link, nights, price_per_night, total_price) == t30);
}

/// One run of the text, found in place after the pieces before it.
proof fn confirmation_part_5(first_name: Seq<char>, last_name: Seq<char>, phone: Seq<char>, address: Seq<char>, zip_code: Seq<char>, city: Seq<char>, accommodation_name: Seq<char>, check_in: Seq<char>, check_out: Seq<char>, payment_link: Seq<char>, cancel_link: Seq<char>, nights: int, price_per_night: int, total_price: int)
    ensures
        contains_text(confirmation_text(first_name, last_name, phone, address, zip_code, city, accommodation_name, check_in, check_out, payment_link, cancel_link, nights, price_per_night, total_price), "<a href='"@ + cancel_link + "'>Click here to cancel</a>"@),
{
    reveal_strlit("'>Click here to pay</a>\n            </p>\n\n            <p>\n                <strong>Cancel booking:</strong><br>\n                <a href='");
    reveal_strlit("'>Click here to pay</a>\n            </p>\n\n            <p>\n                <strong>Cancel booking:</strong><br>\n                ");
    reveal_strlit("<a href='");
    assert("'>Click here to pay</a>\n            </p>\n\n            <p>\n                <strong>Cancel booking:</strong><br>\n                <a href='"@ =~= "'>Click here to pay</a>\n            </p>\n\n            <p>\n                <strong>Cancel booking:</strong><br>\n                "@ + "<a href='"@);
    let x0 = "<html>
        <body style='font-family: Arial, sans-serif;'>
            <p>Dear "@ + first_name + ",</p>

            <p>Thank you for your booking at Camping de Colibri.</p>

            <h3>Your booking overview:</h3>

            <p>
                "@ + first_name + " "@ + last_name + "<br>
                "@ + address + "<br>
                "@ + zip_code + " "@ + city + "<br>
                Phone: "@ + phone + "
            </p>

            <p>You booked a <strong>"@ + accommodation_name + "</strong>.</p>

            <p>
                From <strong>"@ + check_in + "</strong> until <strong>"@ + check_out + "</strong><br>
                <small>("@ + decimal_text(nights) + " nights at €"@ + money_text(price_per_night) + " per night)</small>
            </p>

            <p><strong>Total amount: €"@ + money_text(total_price) + "</strong></p>

            <p>
                <strong>Payment:</strong><br>
                <a href='"@ + payment_link;
    reveal_strlit("'>Click here to cancel</a>\n            </p>\n\n            <p>\n                Kind regards,<br>\n                Team Colibri\n            </p>\n        </body>\n        </html>");
    reveal_strlit("'>Click here to cancel</a>");
    reveal_strlit("\n            </p>\n\n            <p>\n                Kind regards,<br>\n                Team Colibri\n            </p>\n        </body>\n        </html>");
    assert("'>Click here to cancel</a>\n            </p>\n\n            <p>\n                Kind regards,<br>\n                Team Colibri\n            </p>\n        </body>\n        </html>"@ =~= "'>Click here to cancel</a>"@ + "\n            </p>\n\n            <p>\n                Kind regards,<br>\n                Team Colibri\n            </p>\n        </body>\n        </html>"@);
    let n = "<a href='"@ + cancel_link + "'>Click here to cancel</a>"@;
    let t = x0 + "'>Click here to pay</a>
            </p>

            <p>
                <strong>Cancel booking:</strong><br>
                <a href='"@ + cancel_link + "'>Click here to cancel</a>
            </p>

            <p>
                Kind regards,<br>
                Team Colibri
            </p>
        </body>
        </html>"@;
    assert(t =~= x0 + "'>Click here to pay</a>\n            </p>\n\n            <p>\n                <strong>Cancel booking:</strong><br>\n                "@ + n + "\n            </p>\n\n            <p>\n                Kind regards,<br>\n                Team Colibri\n            </p>\n        </body>\n        </html>"@);
    lemma_occurs_middle(x0 + "'>Click here to pay</a>\n            </p>\n\n            <p>\n                <strong>Cancel booking:</strong><br>\n                "@, n, "\n            </p>\n\n            <p>\n                Kind regards,<br>\n                Team Colibri\n            </p>\n        </body>\n        </html>"@);
    let k = (x0 + "'>Click here to pay</a>\n            </p>\n\n            <p>\n                <strong>Cancel booking:</strong><br>\n                "@).len() as int;
    assert(occurs_at(t, n, k));
    assert(confirmation_text(first_name, last_name, phone, address, zip_code, city, accommodation_name, check_in, check_out, payment_link, cancel_link, nights, price_per_night, total_price) == t);
}

/// The confirmation shows the stay in order: the check-in date after
/// "From", the check-out date after "until", then the nights, the nightly
/// price and the total, and the payment link under "pay" and the cancel
/// link under "cancel", whatever the values.
pub proof fn law_confirmation_shows_booking(first_name: Seq<char>, last_name: Seq<char>, phone: Seq<char>, address: Seq<char>, zip_code: Seq<char>, city: Seq<char>, accommodation_name: Seq<char>, check_in: Seq<char>, check_out: Seq<char>, payment_link: Seq<char>, cancel_link: Seq<char>, nights: int, price_per_night: int, total_price: int)
    ensures
        contains_text(confirmation_text(first_name, last_name, phone, address, zip_code, city, accommodation_name, check_in, check_out, payment_link, cancel_link, nights, price_per_night, total_price), "From <strong>"@ + check_in + "</strong> until <strong>"@ + check_out),
        contains_text(confirmation_text(first_name, last_name, phone, address, zip_code, city, accommodation_name, check_in, check_out, payment_link, cancel_link, nights, price_per_night, total_price), "("@ + decimal_text(nights) + " nights at €"@ + money_text(price_per_night) + " per night)"@),
        contains_text(confirmation_text(first_name, last_name, phone, address, zip_code, city, accommodation_name, check_in, check_out, payment_link, cancel_link, nights, price_per_night, total_price), "Total amount: €"@ + money_text(total_price)),
        contains_text(confirmation_text(first_name, last_name, phone, address, zip_code, city, accommodation_name, check_in, check_out, payment_link, cancel_link, nights, price_per_night, total_price), "<a href='"@ + payment_link + "'>Click here to pay</a>"@),
        contains_text(confirmation_text(first_name, last_name, phone, address, zip_code, city, accommodation_name, check_in, check_out, payment_link, cancel_link, nights, price_per_night, total_price), "<a href='"@ + cancel_link + "'>Click here to cancel</a>"@),
{
    confirmation_part_1(first_name, last_name, phone, address, zip_code, city, accommodation_name, check_in, check_out, payment_link, cancel_link, nights, price_per_night, total_price);
    confirmation_part_2(first_name, last_name, phone, address, zip_code, city, accommodation_name, check_in, check_out, payment_link, cancel_link, nights, price_per_night, total_price);
    confirmation_part_3(first_name, last_name, phone, address, zip_code, city, accommodation_name, check_in, check_out, payment_link, cancel_link, nights, price_per_night, total_price);
    confirmation_part_4(first_name, last_name, phone, address, zip_code, city, accommodation_name, check_in, check_out, payment_link, cancel_link, nights, price_per_night, total_price);
    confirmation_part_5(first_name, last_name, phone, address, zip_code, city, accommodation_name, check_in, check_out, payment_link, cancel_link, nights, price_per_night, total_price);
}

/// One run of the text, found in place after the pieces before it.
proof fn booking_update_part_1(first_name: Seq<char>, accommodation_name: Seq<char>, check_in: Seq<char>, check_out: Seq<char>, nights: int, price_per_night: int, total_price: int)
    ensures
        contains_text(booking_update_text(first_name, accommodation_name, check_in, check_out, nights, price_per_night, total_price), "From <strong>"@ + check_in + "</strong>
                until <strong>"@ + check_out),
{
    reveal_strlit("</strong>\n            </p>\n\n            <p>\n                From <strong>");
    reveal_strlit("</strong>\n            </p>\n\n            <p>\n                ");
    reveal_strlit("From <strong>");
    assert("</strong>\n            </p>\n\n            <p>\n                From <strong>"@ =~= "</strong>\n            </p>\n\n            <p>\n                "@ + "From <strong>"@);
    let x0 = "<html>
        <body style='font-family: Arial, sans-serif;'>

            <p>Dear "@ + first_name + ",</p>

            <p>
                Your booking at Camping de Colibri
                has been updated.
            </p>

            <h3>Updated booking overview:</h3>

            <p>
                Accommodation:
                <strong>"@ + accommodation_name;
    let n = "From <strong>"@ + check_in + "</strong>
                until <strong>"@ + check_out;
    let t = x0 + "</strong>
            </p>

            <p>
                From <strong>"@ + check_in + "</strong>
                until <strong>"@ + check_out;
    assert(t =~= x0 + "</strong>\n            </p>\n\n            <p>\n                "@ + n + Seq::<char>::empty());
    lemma_occurs_middle(x0 + "</strong>\n            </p>\n\n            <p>\n                "@, n, Seq::<char>::empty());
    let k = (x0 + "</strong>\n            </p>\n\n            <p>\n                "@).len() as int;
    assert(occurs_at(t, n, k));
    let t8 = t + "</strong><br>

                <small>
                    ("@;
    lemma_occurs_extend(t, "</strong><br>

                <small>
                    ("@, n, k);
    let t9 = t8 + decimal_text(nights);
    lemma_occurs_extend(t8, decimal_text(nights), n, k);
    let t10 = t9 + " nights at €"@;
    lemma_occurs_extend(t9, " nights at €"@, n, k);
    let t11 = t10 + money_text(price_per_night);
    lemma_occurs_extend(t10, money_text(price_per_night), n, k);
    let t12 = t11 + " per night)
                </small>
            </p>

            <p>
                <strong>
                    Total amount: €"@;
    lemma_occurs_extend(t11, " per night)
                </small>
            </p>

            <p>
                <strong>
                    Total amount: €"@, n, k);
    let t13 = t12 + money_text(total_price);
    lemma_occurs_extend(t12, money_text(total_price), n, k);
    let t14 = t13 + "
                </strong>
            </p>

            <p>
                Kind regards,<br>
                Team Colibri
            </p>

        </body>
        </html>"@;
    lemma_occurs_extend(t13, "
                </strong>
            </p>

            <p>
                Kind regards,<br>
                Team Colibri
            </p>

        </body>
        </html>"@, n, k);
    assert(booking_update_text(first_name, accommodation_name, check_in, check_out, nights, price_per_night, total_price) == t14);
}

/// One run of the text, found in place after the pieces before it.
proof fn booking_update_part_2(first_name: Seq<char>, accommodation_name: Seq<char>, check_in: Seq<char>, check_out: Seq<char>, nights: int, price_per_night: int, total_price: int)
    ensures
        contains_text(booking_update_text(first_name, accommodation_name, check_in, check_out, nights, price_per_night, total_price), "("@ + decimal_text(nights) + " nights at €"@ + money_text(price_per_night) + " per night)"@),
{
    reveal_strlit("</strong><br>\n\n                <small>\n                    (");
    reveal_strlit("</strong><br>\n\n                <small>\n                    ");
    reveal_strlit("(");
    assert("</strong><br>\n\n                <small>\n                    ("@ =~= "</strong><br>\n\n                <small>\n                    "@ + "("@);
    let x0 = "<html>
        <body style='font-family: Arial, sans-serif;'>

            <p>Dear "@ + first_name + ",</p>

            <p>
                Your booking at Camping de Colibri
                has been updated.
            </p>

            <h3>Updated booking overview:</h3>

            <p>
                Accommodation:
                <strong>"@ + accommodation_name + "</strong>
            </p>

            <p>
                From <strong>"@ + check_in + "</strong>
                until <strong>"@ + check_out;
    reveal_strlit(" per night)\n                </small>\n            </p>\n\n            <p>\n                <strong>\n                    Total amount: €");
    reveal_strlit(" per night)");
    reveal_strlit("\n                </small>\n            </p>\n\n            <p>\n                <strong>\n                    Total amount: €");
    assert(" per night)\n                </small>\n            </p>\n\n            <p>\n                <strong>\n                    Total amount: €"@ =~= " per night)"@ + "\n                </small>\n            </p>\n\n            <p>\n                <strong>\n                    Total amount: €"@);
    let n = "("@ + decimal_text(nights) + " nights at €"@ + money_text(price_per_night) + " per night)"@;
    let t = x0 + "</strong><br>

                <small>
                    ("@ + decimal_text(nights) + " nights at €"@ + money_text(price_per_night) + " per night)
                </small>
            </p>

            <p>
                <strong>
                    Total amount: €"@;
    assert(t =~= x0 + "</strong><br>\n\n                <small>\n                    "@ + n + "\n                </small>\n            </p>\n\n            <p>\n                <strong>\n                    Total amount: €"@);
    lemma_occurs_middle(x0 + "</strong><br>\n\n                <small>\n                    "@, n, "\n                </small>\n            </p>\n\n            <p>\n                <strong>\n                    Total amount: €"@);
    let k = (x0 + "</strong><br>\n\n                <small>\n                    "@).len() as int;
    assert(occurs_at(t, n, k));
    let t13 = t + money_text(total_price);
    lemma_occurs_extend(t, money_text(total_price), n, k);
    let t14 = t13 + "
                </strong>
            </p>

            <p>
                Kind regards,<br>
                Team Colibri
            </p>

        </body>
        </html>"@;
    lemma_occurs_extend(t13, "
                </strong>
            </p>

            <p>
                Kind regards,<br>
                Team Colibri
            </p>

        </body>
        </html>"@, n, k);
    assert(booking_update_text(first_name, accommodation_name, check_in, check_out, nights, price_per_night, total_price) == t14);
}

/// One run of the text, found in place after the pieces before it.
proof fn booking_update_part_3(first_name: Seq<char>, accommodation_name: Seq<char>, check_in: Seq<char>, check_out: Seq<char>, nights: int, price_per_night: int, total_price: int)
    ensures
        contains_text(booking_update_text(first_name, accommodation_name, check_in, check_out, nights, price_per_night, total_price), "Total amount: €"@ + money_text(total_price)),
{
    reveal_strlit(" per night)\n                </small>\n            </p>\n\n            <p>\n                <strong>\n                    Total amount: €");
    reveal_strlit(" per night)\n                </small>\n            </p>\n\n            <p>\n                <strong>\n                    ");
    reveal_strlit("Total amount: €");
    assert(" per night)\n                </small>\n            </p>\n\n            <p>\n                <strong>\n                    Total amount: €"@ =~= " per night)\n                </small>\n            </p>\n\n            <p>\n                <strong>\n                    "@ + "Total amount: €"@);
    let x0 = "<html>
        <body style='font-family: Arial, sans-serif;'>

            <p>Dear "@ + first_name + ",</p>

            <p>
                Your booking at Camping de Colibri
                has been updated.
            </p>

            <h3>Updated booking overview:</h3>

            <p>
                Accommodation:
                <strong>"@ + accommodation_name + "</strong>
            </p>

            <p>
                From <strong>"@ + check_in + "</strong>
                until <strong>"@ + check_out + "</strong><br>

                <small>
                    ("@ + decimal_text(nights) + " nights at €"@ + money_text(price_per_night);
    let n = "Total amount: €"@ + money_text(total_price);
    let t = x0 + " per night)
                </small>
            </p>

            <p>
                <strong>
                    Total amount: €"@ + money_text(total_price);
    assert(t =~= x0 + " per night)\n                </small>\n            </p>\n\n            <p>\n                <strong>\n                    "@ + n + Seq::<char>::empty());
    lemma_occurs_middle(x0 + " per night)\n                </small>\n            </p>\n\n            <p>\n                <strong>\n                    "@, n, Seq::<char>::empty());
    let k = (x0 + " per night)\n                </small>\n            </p>\n\n            <p>\n                <strong>\n                    "@).len() as int;
    assert(occurs_at(t, n, k));
    let t14 = t + "
                </strong>
            </p>

            <p>
                Kind regards,<br>
                Team Colibri
            </p>

        </body>
        </html>"@;
    lemma_occurs_extend(t, "
                </strong>
            </p>

            <p>
                Kind regards,<br>
                Team Colibri
            </p>

        </body>
        </html>"@, n, k);
    assert(booking_update_text(first_name, accommodation_name, check_in, check_out, nights, price_per_night, total_price) == t14);
}

/// The change notice shows the new stay in order: the check-in date after
/// "From", the check-out date after "until", then the nights, the nightly
/// price and the total, whatever the values.
pub proof fn law_update_shows_stay(first_name: Seq<char>, accommodation_name: Seq<char>, check_in: Seq<char>, check_out: Seq<char>, nights: int, price_per_night: int, total_price: int)
    ensures
        contains_text(booking_update_text(first_name, accommodation_name, check_in, check_out, nights, price_per_night, total_price), "From <strong>"@ + check_in + "</strong>
                until <strong>"@ + check_out),
        contains_text(booking_update_text(first_name, accommodation_name, check_in, check_out, nights, price_per_night, total_price), "("@ + decimal_text(nights) + " nights at €"@ + money_text(price_per_night) + " per night)"@),
        contains_text(booking_update_text(first_name, accommodation_name, check_in, check_out, nights, price_per_night, total_price), "Total amount: €"@ + money_text(total_price)),
{
    booking_update_part_1(first_name, accommodation_name, check_in, check_out, nights, price_per_night, total_price);
    booking_update_part_2(first_name, accommodation_name, check_in, check_out, nights, price_per_night, total_price);
    booking_update_part_3(first_name, accommodation_name, check_in, check_out, nights, price_per_night, total_price);
}

} // verus!
