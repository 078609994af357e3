pub mod subscriptions;

pub use subscriptions::{encode_form, insert_finished, subscribe, FormData, SubscribeAction};
