//! The vocabulary of the printer protocol that the library works with.

pub mod page_code;
pub mod page_codes;

pub use page_code::PageCode;
