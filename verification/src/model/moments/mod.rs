pub mod interact;
pub mod manage;
pub mod media;
pub mod publish;
pub mod settings;
pub mod timeline;
