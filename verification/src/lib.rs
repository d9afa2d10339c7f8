//! Validator for RQL, a LISP-like resource-query notation of nested
//! function calls, e.g. `or(and(eq(name,John),eq(surname,Doe)),eq(surname,Smith))`.
//!
//! [`RqlValidator`] answers whether a string is a grammatically legal RQL
//! expression: its parentheses balance, and every operator node satisfies the
//! arity rule of its operator class. The meaning of validity is written down
//! in the specification functions of [`model`], and every stage of the
//! pipeline is proved against them.

pub mod interfaces;
pub mod laws;
pub mod model;
pub mod rql_validator;
pub mod text;

pub use crate::interfaces::validator_interface::ValidatorInterface;
pub use crate::rql_validator::RqlValidator;
