//! Character encoding for ESC/POS receipt printers: code-page tables and the
//! translation of Unicode text into the single-byte encoding a printer expects.

pub mod domain;
pub mod errors;
pub mod translator;
