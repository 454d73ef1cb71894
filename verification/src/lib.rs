//! An ActivityPub server's decision logic: activity addressing and delivery,
//! inbox validation, collection paging, OAuth flows, account registration
//! and the conversion of ActivityPub entities into Mastodon API entities.
pub mod clean;
pub mod clock;
pub mod collections;
pub mod config;
pub mod consts;
pub mod crypto;
pub mod email;
pub mod error;
pub mod fetcher;
pub mod handlers;
pub mod ids;
pub mod inbox;
pub mod instantiate;
pub mod interactions;
pub mod mastodon;
pub mod model;
pub mod oauth;
pub mod recipients;
pub mod register;
pub mod text;
