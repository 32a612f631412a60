pub mod address;
pub mod message;
pub mod optional;
