//! The payloads of the service and their validation rules.

pub mod candidate;
pub mod experience;
pub mod list_candidate;
pub mod reference;
