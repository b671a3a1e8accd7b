pub mod admin;
pub mod manage;
pub mod member;
pub mod settings;
