//! Structured validation for an animal catalogue: string inspection, rule
//! primitives, typed fields, aggregate validation, localisation of error
//! tokens, the wire envelope of the HTTP surface and the client form state.

pub mod api;
pub mod catalogue;
pub mod description;
pub mod field;
pub mod form;
pub mod inspector;
pub mod locale_file;
pub mod locale;
pub mod models;
pub mod species;
pub mod string_rules;
pub mod template;
pub mod text;
