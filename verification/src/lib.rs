pub mod address;
pub mod probe;
pub mod text;
