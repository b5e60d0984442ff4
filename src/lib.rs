//! Validation of compact signed tokens against a key set, with composable
//! claim policies, plus the small value types of the admin console.
pub mod catalog;
pub mod claim_validator;
pub mod claims;
pub mod codec;
pub mod creation_date;
pub mod decimal;
pub mod json;
pub mod keys;
pub mod license;
pub mod media;
pub mod metadata;
pub mod obfuscator;
pub mod signature;
pub mod tenancy;
pub mod token;
pub mod upload;
pub mod validation;
