//! The validated input types of the workflow: a subscriber's display name and
//! email address, and the pair of them that a registration works on.

pub mod new_subscriber;
pub mod subscriber_email;
pub mod subscriber_name;

pub use new_subscriber::NewSubscriber;
pub use subscriber_email::SubscriberEmail;
pub use subscriber_name::SubscriberName;
