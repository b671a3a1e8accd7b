pub mod common;
pub mod follow;
pub mod interact;
pub mod message;
pub mod profile;
pub mod publish;
pub mod scan;
pub mod search;
