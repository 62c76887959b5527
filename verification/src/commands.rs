//! The commands the surrounding program accepts. Parsing the command text and
//! replying happen at the program's edge; the rule that decides who may use
//! which command lives with the group settings.

use vstd::prelude::*;

use crate::config::GroupSettings;

verus! {

/// The help commands open to everybody in an allowed group.
#[derive(Clone, Copy, Debug, PartialEq, Eq, Structural)]
pub enum Commands {
    /// Show the general help text.
    Help,
    /// Show the admin commands' help text.
    AdminHelp,
    /// Show the user commands' help text.
    UserHelp,
}

/// The commands open to the group's admins.
#[derive(Clone, Copy, Debug, PartialEq, Eq, Structural)]
pub enum AdminCommands {
    /// Report that the program is up.
    Status,
    /// Report how long the program has been up.
    Uptime,
    /// Point at the source code.
    SourceCode,
}

/// The crate-lookup commands.
#[derive(Clone, Debug, PartialEq, Eq)]
pub enum UserCommands {
    /// Look a crate up on the registry.
    Crate(String),
    /// Look a documentation page up.
    Doc(String),
}

impl GroupSettings {
    /// Whether someone may use the crate-lookup commands here: everybody
    /// where the group opens them, otherwise only an admin.
    pub fn user_commands_allowed(&self, is_admin: bool) -> (r: bool)
        ensures
            r == (self.crates_commands || is_admin),
    {
        self.crates_commands || is_admin
    }
}

} // verus!
