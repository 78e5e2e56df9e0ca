//! Core of a command-line translator: it decides which way a text is to be
//! translated, signs the request for the translation service and lays out
//! what is shown of the service's answer.

pub mod language;
pub mod calendar;
pub mod digest;
pub mod json;
pub mod presenter;
pub mod request;
pub mod session;
pub mod signer;
pub mod text;
