pub mod info;
pub mod manage;
pub mod wecom;
