//! Kuaishou signing algorithms and request descriptors.

pub mod api;
pub mod author;
pub mod fetcher;
pub mod json;
pub mod live_info;
pub mod live_room;
pub mod payload;
pub mod primitives;
pub mod profile;
pub mod request;
pub mod sign;
pub mod support;
pub mod transport;
pub mod types;
pub mod value;
pub mod works;
