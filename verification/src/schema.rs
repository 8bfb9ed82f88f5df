//! The normalized advisory record.

pub mod ovf_schema;
