//! The decision core of a command-line client for a DNS/CDN provider's
//! management API. It turns symbolic or partial user input into
//! well-formed, validated requests: typed record content, a single
//! resolved credential, a canonical zone identifier, full-replace record
//! updates merged from partial ones, and bounded cache purges. Every
//! function here carries a contract; the surrounding binary performs the
//! network and terminal work and calls in for each decision.

pub mod accounts;
pub mod cache;
pub mod config;
pub mod content;
pub mod dns;
pub mod errors;
pub mod http;
pub mod ipv4;
pub mod ipv6;
pub mod strutil;
pub mod validate;
pub mod zones;
