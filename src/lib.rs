//! Media proxy and content-addressed cache for a privacy-preserving social
//! media front-end.
//!
//! Origin media URLs get stable content addresses ([`address`]), are
//! recorded in a pluggable keystore ([`keystore`]), handed out as proxied
//! links and served back with a sniffed content type ([`proxy`]). The media
//! references of a provider's user or post tree are rewritten to such links
//! under a hard/soft failure policy ([`media`]).

pub mod address;
pub mod base;
pub mod config;
pub mod error;
pub mod formatters;
pub mod keystore;
pub mod media;
pub mod proxy;
pub mod request;
