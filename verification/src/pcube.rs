pub mod common;
pub mod host;
pub mod worker;
