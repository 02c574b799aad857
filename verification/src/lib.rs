//! Request handling for a mail service object: resolving a sender profile
//! from an identity provider and sending mail over SMTP with XOAUTH2.
pub mod emailer;
pub mod error;
pub mod get_profile;
pub mod interface;
pub mod shared_object;
pub mod token;
pub mod value;
