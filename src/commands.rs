//! Decisions of the command line that do not touch the disk.
use vstd::prelude::*;

use crate::error::SdkError;

verus! {

/// The arguments of the removal command.
pub struct RmArgs {
    pub version: Option<String>,
    pub all: bool,
    pub skip_engine_cleanup: bool,
}

/// What the removal command removes.
pub enum RmTarget {
    All,
    One(String),
}

impl RmArgs {
    /// One version or all of them; giving both or neither is refused.
    pub fn target(&self) -> (r: Result<RmTarget, SdkError>)
        ensures
            self.all && self.version is None ==> r matches Ok(RmTarget::All),
            !self.all && self.version is Some ==> (r matches Ok(RmTarget::One(v)) && v@ == self.version->0@),
            self.all == self.version is Some ==> r matches Err(SdkError::InvalidArguments(_)),
    {
        match (&self.version, self.all) {
            (None, false) => Err(SdkError::InvalidArguments("Either specify a version or use --all flag".to_owned())),
            (Some(_), true) => Err(SdkError::InvalidArguments("Cannot specify both a version and --all flag".to_owned())),
            (None, true) => Ok(RmTarget::All),
            (Some(v), false) => Ok(RmTarget::One(v.clone())),
        }
    }
}

/// The fork subcommands.
pub enum ForkCommands {
    Add { alias: String, git_url: String },
    Remove { alias: String },
    List,
}

/// The arguments of the fork command.
pub struct ForkArgs {
    pub command: ForkCommands,
}

} // verus!
