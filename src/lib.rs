//! Newsletter sign-up core: validated subscriber data, configuration
//! helpers and the request an email delivery takes.

pub mod configuration;
pub mod domain;
pub mod secret;
pub mod email_client;
