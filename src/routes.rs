//! The registration pipeline behind the signup form.
pub mod subscriptions;

pub use subscriptions::{
    begin_registration, finish_registration, is_valid_name, FormData, Outcome, RegistrationStep,
    StorageError, SubscriberRecord,
};
