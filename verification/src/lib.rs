//! Signing primitives, request builders and page-scraping helpers for the
//! Kuaishou and Twitter/X web protocols, with their behaviour stated as
//! Verus contracts.

pub mod client;
pub mod error;
pub mod kuaishou;
pub mod pairs;
pub mod scan;
pub mod text;
pub mod twitter;
pub mod weburl;

