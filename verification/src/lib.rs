//! Core of a mailing-list subscription service: input validation, the
//! confirmation-token workflow, and the transactional subscriber store.
//!
//! A visitor subscribes with an email address and a display name; a pending
//! subscriber row and a single-use confirmation token are created atomically;
//! a confirmation email carrying the token link is composed and dispatched;
//! redeeming the token promotes the subscriber from pending to confirmed.

pub mod configuration;
pub mod dispatch;
pub mod error;
pub mod models;
pub mod store;
pub mod text;
pub mod token;
pub mod validation;
pub mod workflow;
