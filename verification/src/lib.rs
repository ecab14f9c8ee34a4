//! Strings that carry, in their type, the rule they were checked against.
//!
//! A [`Validator`] names a rule over text. A [`SafeString`] holds text that
//! its validator accepts: the rule is checked once, when the value is made,
//! and holds for as long as the value exists.

pub mod error;
pub mod safestring;
pub mod validator;
pub mod words;

pub use error::Error;
pub use safestring::SafeString;
pub use validator::{ApiKey, Email, Fullname, Validator};
