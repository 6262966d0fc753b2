//! Verified core of the Connectify service: appointment slot search, booking and
//! calendar decisions, payment signatures and request building, and the rules that
//! turn outside replies into results.
pub mod common;
pub mod config;
pub mod text;
pub mod codec;
pub mod json;
pub mod time;
pub mod slots;
pub mod slot_laws;
pub mod gcal;
pub mod gcal_laws;
pub mod stripe;
pub mod stripe_signature;
pub mod signature_laws;
pub mod payrexx;
pub mod twilio;
