pub mod kubernetes;
pub mod operations;
