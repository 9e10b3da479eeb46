//! Booking rules of Camping de Colibri: form checks, stay pricing, log-in
//! throttling, staff and customer administration decisions, invoice
//! numbers and e-mail texts, each with its contract.
pub mod calendar;
pub mod controllers;
pub mod db;
pub mod templates;
pub mod text;
