//! A mailing list's core: subscriber names and addresses are validated, a new
//! subscriber is stored together with a confirmation token, the token confirms
//! the subscriber, and an issue is sent to the confirmed subscribers one at a
//! time, stopping at the first failed send.
pub mod authentication;
pub mod configuration;
pub mod confirmation_email;
pub mod errors;
pub mod laws;
pub mod new_subscriber;
pub mod newsletter;
pub mod store;
pub mod subscriber_email;
pub mod subscriber_name;
pub mod subscriptions;
pub mod text;
