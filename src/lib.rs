//! Tip jars: per-owner accounts that take donations, keep a fixed fee for a
//! fee recipient, and let only their owner withdraw or close them.
pub mod address;
pub mod error;
pub mod fee;
pub mod instruction;
pub mod key;
pub mod lifecycle;
pub mod token;
