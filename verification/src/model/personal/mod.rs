pub mod profile;
pub mod safety;
pub mod settings;
