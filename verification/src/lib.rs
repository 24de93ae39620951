//! Themes for an editor, a terminal emulator and a terminal multiplexer: a
//! registry of named themes, and the patches that write one theme into the
//! configuration text of each tool.

use vstd::prelude::*;

pub mod actions;
pub mod config;
pub mod error;
pub mod fsutil;
pub mod models;
pub mod pattern;
pub mod text;

verus! {

/// The name of the theme that a command is about.
#[derive(Debug, Clone, PartialEq, Eq)]
pub struct NewOptions {
    pub name: String,
}

/// A command.
#[derive(Debug, Clone, PartialEq, Eq)]
pub enum Action {
    /// Lists the themes of the registry.
    List,
    /// Adds a theme without settings to the registry.
    New(NewOptions),
    /// Applies a theme.
    Apply(NewOptions),
}

/// What the command line holds.
#[derive(Debug, Clone, PartialEq, Eq)]
pub struct Args {
    /// The command.
    pub action: Action,
    /// The name of a theme to apply; where it is given, it is applied
    /// whatever the command says.
    pub theme: Option<String>,
}

impl Args {
    /// The command that is carried out: a theme named on its own is
    /// applied, and else the command stands.
    pub fn command(self) -> (r: Action)
        ensures
            match self.theme {
                Some(name) => r == Action::Apply(NewOptions { name }),
                None => r == self.action,
            },
    {
        match self.theme {
            Some(name) => Action::Apply(NewOptions { name }),
            None => self.action,
        }
    }
}

} // verus!
