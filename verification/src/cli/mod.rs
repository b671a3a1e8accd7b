//! The decisions of the command-line client.
pub mod config;
pub mod error;
pub mod pattern;
pub mod wait_reply;
pub mod moments;
pub mod contact;
pub mod favorite;
pub mod group;
pub mod login;
pub mod message;
pub mod personal;
pub mod tag;
pub mod video_account;
pub mod logging;
pub mod webhook;
