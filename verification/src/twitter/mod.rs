//! Twitter/X web protocol helpers.

pub mod api;
pub mod base64;
pub mod entities;
pub mod fetcher;
pub mod graphql;
pub mod home;
pub mod html;
pub mod padding;
pub mod pages;
pub mod parse;
pub mod session;
pub mod space;
pub mod timeline;
pub mod transaction;
pub mod transport;
pub mod types;
pub mod users;
pub mod values;
