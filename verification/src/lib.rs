//! Request authorization and validation rules of a candidate-profile service:
//! the identity carried by gateway headers, role gates, payload validation,
//! listing tiers, and the classification of storage and collaborator outcomes.

pub mod auth_headers;
pub mod authorization;
pub mod candidate;
pub mod cv;
pub mod dtos;
pub mod error;
pub mod experience;
pub mod identity_provider;
pub mod ids;
pub mod laws;
pub mod listing;
pub mod reference;
pub mod storage;
pub mod text;
pub mod timestamp;
pub mod utils;
pub mod validation;
