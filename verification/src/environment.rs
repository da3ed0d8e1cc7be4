//! The known room-management backends and the URLs at which a room is
//! fetched and shown.

use vstd::prelude::*;
use crate::errors::ConfigError;
use crate::template::str_eq;

verus! {

/// One known backend.
#[derive(Debug, Clone, Copy, PartialEq, Eq, Structural)]
pub enum Environment {
    Meet,
    OpentokRtc,
    OpentokDemo,
    MeetHeroku,
}

/// The environment a command-line tag selects, if any.
pub open spec fn environment_of_tag(s: Seq<char>) -> Option<Environment> {
    if s == "meet"@ {
        Some(Environment::Meet)
    } else if s == "opentokrtc"@ {
        Some(Environment::OpentokRtc)
    } else if s == "opentokdemo"@ {
        Some(Environment::OpentokDemo)
    } else if s == "heroku"@ {
        Some(Environment::MeetHeroku)
    } else {
        None
    }
}

/// The name under which an environment is reported.
pub open spec fn environment_name(e: Environment) -> Seq<char> {
    match e {
        Environment::Meet => "meet"@,
        Environment::OpentokRtc => "opentokrtc"@,
        Environment::OpentokDemo => "opentokdemo"@,
        Environment::MeetHeroku => "opentok-meet"@,
    }
}

/// The machine-facing URL from which the session of `room` is fetched.
pub open spec fn fetch_url_text(e: Environment, room: Seq<char>) -> Seq<char> {
    match e {
        Environment::Meet => "https://meet.tokbox.com/"@ + room,
        Environment::OpentokRtc => "https://opentokrtc.com/room/"@ + room + "/info"@,
        Environment::OpentokDemo => "https://opentokdemo.tokbox.com/room/"@ + room + "/info"@,
        Environment::MeetHeroku => "https://opentok-meet.herokuapp.com/"@ + room,
    }
}

/// The human-facing URL of `room`, embedded in rendered output.
pub open spec fn display_url_text(e: Environment, room: Seq<char>) -> Seq<char> {
    match e {
        Environment::Meet => "https://meet.tokbox.com/"@ + room,
        Environment::OpentokRtc => "https://opentokrtc.com/room/"@ + room,
        Environment::OpentokDemo => "https://opentokdemo.tokbox.com/room/"@ + room,
        Environment::MeetHeroku => "https://opentok-meet.herokuapp.com/"@ + room,
    }
}

impl Environment {
    /// The environment a command-line tag selects, or the configuration
    /// error.
    pub fn from_str(s: &str) -> (r: Result<Environment, ConfigError>)
        ensures
            match r {
                Ok(e) => environment_of_tag(s@) == Some(e),
                Err(e) => e == ConfigError::UnknownEnvironment && environment_of_tag(s@) is None,
            },
    {
        if str_eq(s, "meet") {
            Ok(Environment::Meet)
        } else if str_eq(s, "opentokrtc") {
            Ok(Environment::OpentokRtc)
        } else if str_eq(s, "opentokdemo") {
            Ok(Environment::OpentokDemo)
        } else if str_eq(s, "heroku") {
            Ok(Environment::MeetHeroku)
        } else {
            Err(ConfigError::UnknownEnvironment)
        }
    }

    /// The name under which this environment is reported.
    pub fn as_str(&self) -> (r: &'static str)
        ensures
            r@ == environment_name(*self),
    {
        match self {
            Environment::Meet => "meet",
            Environment::OpentokRtc => "opentokrtc",
            Environment::OpentokDemo => "opentokdemo",
            Environment::MeetHeroku => "opentok-meet",
        }
    }

    /// The fetch URL and the display URL of `room` on this backend. The room
    /// name is interpolated verbatim; whoever performs the fetch owns its
    /// URL-safety.
    pub fn urls(&self, room: &str) -> (r: (String, String))
        ensures
            r.0@ == fetch_url_text(*self, room@),
            r.1@ == display_url_text(*self, room@),
    {
        match self {
            Environment::Meet => (
                String::from_str("https://meet.tokbox.com/").concat(room),
                String::from_str("https://meet.tokbox.com/").concat(room),
            ),
            Environment::OpentokRtc => (
                String::from_str("https://opentokrtc.com/room/").concat(room).concat("/info"),
                String::from_str("https://opentokrtc.com/room/").concat(room),
            ),
            Environment::OpentokDemo => (
                String::from_str("https://opentokdemo.tokbox.com/room/").concat(room).concat(
                    "/info",
                ),
                String::from_str("https://opentokdemo.tokbox.com/room/").concat(room),
            ),
            Environment::MeetHeroku => (
                String::from_str("https://opentok-meet.herokuapp.com/").concat(room),
                String::from_str("https://opentok-meet.herokuapp.com/").concat(room),
            ),
        }
    }
}

} // verus!
