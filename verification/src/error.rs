//! The failures that the library and the program around it report.

use vstd::prelude::*;
use vstd::string::*;

verus! {

/// A failure, by kind.
#[derive(Debug, Clone, PartialEq, Eq)]
pub enum Error {
    /// A file that was asked for is not there.
    FileNotFound,
    /// A configuration text has not the shape that a patch needs; the reason is given.
    InvalidConfig(&'static str),
    /// The registry is no well-formed JSON array of themes; the decoder's message is given.
    JSON(String),
    /// A configuration text is no well-formed YAML; the parser's message is given.
    YAML(String),
    /// Reading or writing a file failed; the system's message is given.
    FileSystem(String),
    /// The registry holds no theme of the name that was asked for.
    ThemeNotFound,
    /// A failure that says of itself what it is.
    Custom(&'static str),
    /// An unexpected failure, such as a pattern that does not compile; its message is given.
    Generic(String),
}

impl Error {
    /// The text that a user is shown for this failure.
    pub open spec fn text(&self) -> Seq<char> {
        match self {
            Error::FileNotFound => "cannot find file"@,
            Error::InvalidConfig(reason) => "invalid config: "@ + reason@,
            Error::JSON(message) => "invalid json: "@ + message@,
            Error::YAML(message) => "invalid yaml: "@ + message@,
            Error::FileSystem(_) => "FileSystem error"@,
            Error::ThemeNotFound => "the theme you are looking for does not exists"@,
            Error::Custom(message) => message@,
            Error::Generic(message) => "something went wrong: "@ + message@,
        }
    }

    /// Renders the failure for a user.
    pub fn message(&self) -> (s: String)
        ensures
            s@ == self.text(),
    {
        match self {
            Error::FileNotFound => "cannot find file".to_owned(),
            Error::InvalidConfig(reason) => {
                let mut s = "invalid config: ".to_owned();
                s.append(reason);
                s
            },
            Error::JSON(message) => {
                let mut s = "invalid json: ".to_owned();
                s.append(message.as_str());
                s
            },
            Error::YAML(message) => {
                let mut s = "invalid yaml: ".to_owned();
                s.append(message.as_str());
                s
            },
            Error::FileSystem(_) => "FileSystem error".to_owned(),
            Error::ThemeNotFound => "the theme you are looking for does not exists".to_owned(),
            Error::Custom(message) => {
                let s = (*message).to_owned();
                s
            },
            Error::Generic(message) => {
                let mut s = "something went wrong: ".to_owned();
                s.append(message.as_str());
                s
            },
        }
    }
}

} // verus!
