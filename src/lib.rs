//! Constrained value construction: builder functions that validate raw
//! input against a length bound, a numeric range or a pattern, and either
//! wrap it with a caller-supplied constructor or report a structured error.

pub mod error;
pub mod numeral;
pub mod string;
pub mod string_option;
pub mod integer;
pub mod uint;
pub mod pattern;
pub mod string_like;
pub mod password;
pub mod builder;
pub mod email_address;
pub mod string_55;
pub mod unit_quantity;
