pub mod subscriber_email;
pub mod subscriber_name;

pub use subscriber_email::SubscriberEmail;
pub use subscriber_name::SubscriberName;
pub mod new_subscriber;

pub use new_subscriber::NewSubscriber;
