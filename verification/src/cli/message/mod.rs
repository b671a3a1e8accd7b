pub mod download;
pub mod forward;
pub mod revoke;
pub mod send;
