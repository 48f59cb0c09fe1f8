//! Parsing, validation and evaluation of SPDX license expressions.

pub mod allowed;
pub mod collections;
pub mod detection;
pub mod error;
pub mod expression;
pub mod identifiers;
pub mod laws;
pub mod lexer;
pub mod licensee;
pub mod registry;
pub mod requirement;
pub mod text;

pub use allowed::AllowedLicense;
pub use error::ParseError;
pub use expression::Expression;
pub use lexer::ParseMode;
pub use licensee::Licensee;
pub use registry::{
    exception_id, gnu_license_id, imprecise_license_id, license_id, license_version, Exception,
    ExceptionId, License, LicenseId,
};
pub use requirement::{AdditionItem, AdditionRef, LicenseItem, LicenseRef, LicenseReq};
