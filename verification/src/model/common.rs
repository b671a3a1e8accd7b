use vstd::prelude::*;
use crate::text::{int_text, i64_text, push_str};

verus! {

/// The identifier of a device (bot instance) at the Gewe API.
#[derive(Debug, Clone, PartialEq, Eq, Hash)]
pub struct AppId(pub String);

/// The WeChat identifier of a bot.
#[derive(Debug, Clone, PartialEq, Eq, Hash)]
pub struct BotId(pub String);

impl From<String> for BotId {
    fn from(value: String) -> (r: Self) {
        BotId(value)
    }
}

impl vstd::std_specs::convert::FromSpecImpl<String> for BotId {
    open spec fn obeys_from_spec() -> bool {
        true
    }

    open spec fn from_spec(v: String) -> Self {
        BotId(v)
    }
}

impl<'a> From<&'a str> for BotId {
    fn from(value: &'a str) -> (r: Self)
        ensures
            r.0@ == value@,
    {
        BotId(value.to_owned())
    }
}

impl<'a> vstd::std_specs::convert::FromSpecImpl<&'a str> for BotId {
    // A `String` is not determined by its characters in this logic, so the
    // result is described by the `ensures` of `from` instead.
    open spec fn obeys_from_spec() -> bool {
        false
    }

    open spec fn from_spec(v: &'a str) -> Self {
        BotId(vstd::pervasive::arbitrary())
    }
}

/// What is known of a bot: its app id, its API token, its webhook secret and a
/// description.
#[derive(Debug, Clone)]
pub struct BotContext {
    pub app_id: AppId,
    pub token: String,
    pub webhook_secret: Option<String>,
    pub description: Option<String>,
}

/// A callback pushed by the Gewe platform.
#[derive(Debug, Clone)]
pub struct CallbackEnvelope<T> {
    pub appid: String,
    pub data: T,
}

/// The envelope of every API reply.
#[derive(Debug, Clone)]
pub struct ApiEnvelope<T> {
    pub ret: i32,
    pub msg: String,
    pub data: Option<T>,
}

/// A failed API call.
#[derive(Debug)]
pub enum GeweError {
    Http(String),
    Api { code: i32, message: String },
    Decode(String),
    MissingData,
}

impl GeweError {
    /// The text of the error.
    pub open spec fn text(&self) -> Seq<char> {
        match self {
            GeweError::Http(m) => "http error: "@ + m@,
            GeweError::Api { code, message } => "api error code="@ + int_text(*code as int) + ": "@
                + message@,
            GeweError::Decode(m) => "decode error: "@ + m@,
            GeweError::MissingData => "missing data"@,
        }
    }

    /// The text of the error (what it displays).
    pub fn message(&self) -> (r: String)
        ensures
            r@ == self.text(),
    {
        match self {
            GeweError::Http(m) => {
                let mut r = "http error: ".to_owned();
                push_str(&mut r, m.as_str());
                r
            },
            GeweError::Api { code, message } => {
                let mut r = "api error code=".to_owned();
                let n = i64_text(*code as i64);
                push_str(&mut r, n.as_str());
                push_str(&mut r, ": ");
                push_str(&mut r, message.as_str());
                r
            },
            GeweError::Decode(m) => {
                let mut r = "decode error: ".to_owned();
                push_str(&mut r, m.as_str());
                r
            },
            GeweError::MissingData => "missing data".to_owned(),
        }
    }
}

} // verus!
