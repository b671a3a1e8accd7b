//! Verified core of the Gewe WeChat-automation toolkit: the API's request and
//! response types, and the decisions the command-line client takes before and
//! after it talks to the API.
pub mod model;
pub mod text;
pub mod cli;
pub mod grpc;
