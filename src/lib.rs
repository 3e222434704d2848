pub mod identifier;
pub mod parse;
pub mod services;
pub mod types;
pub mod workout;
