//! The dynamically tagged value substrate: configuration keys and values
//! that can be stored, compared, hashed and printed without the caller
//! committing to one static type.

pub mod any;

pub mod immutable;

pub mod mutable;

pub mod option;
