//! A layered, dynamically updatable configuration core.
//!
//! A configuration manager resolves a typed property value by consulting
//! multiple named configuration sources in priority order, applying type
//! conversion and value filtering, caching the result, and reporting which
//! listeners must be notified when a resolved value changes.

pub mod value;

pub mod convert;

pub mod filter;

pub mod property;

pub mod source;

pub mod manager;
