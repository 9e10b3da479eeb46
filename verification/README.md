# colibri

The booking site of Camping de Colibri, split in two.

- `src/` is the verified library: the checks of the booking, customer and
  staff forms, the pricing of a stay, the throttling of admin log-ins, the
  decisions of the staff and customer screens, invoice numbers, redirect
  addresses and the texts of the e-mails. Every public function states its
  result in `ensures`; the laws that span functions are public proof
  functions named `law_*`. Calls into `chrono`, `bcrypt`, `uuid` and
  `rust_decimal` stand behind small trusted wrappers whose contracts say
  what those crates document.
- `app/` is the web server (actix-web): sessions, PostgreSQL, SMTP and page
  rendering. It reads requests, asks the library what to do, and carries it
  out.
- `tests/` runs the library on concrete values.
