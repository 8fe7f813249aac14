//! Newsletter subscription workflow: input validation, confirmation-token
//! issuance, transactional persistence of subscribers with their tokens, and
//! the confirmation flow that promotes a pending subscriber to confirmed.

pub mod config;
pub mod confirmation;
pub mod domain;
pub mod email;
pub mod http;
pub mod registration;
pub mod store;
pub mod text;
pub mod token;
