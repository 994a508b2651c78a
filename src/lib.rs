pub mod complexity;
pub mod error;
pub mod infer;
pub mod name;
pub mod validate;

pub use crate::error::Error;
pub use crate::name::Name;
