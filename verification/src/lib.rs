pub mod config;
pub mod errors;
pub mod lifecycle;
pub mod profile;
pub mod provider;
pub mod redirect;
pub mod text;
