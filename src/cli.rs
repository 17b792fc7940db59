use vstd::prelude::*;
use crate::services::build_command::Build;
use crate::services::read_command::Read;

verus! {

/// The command line: a logging level and the command to run.
#[derive(Clone, Debug)]
pub struct Cli {
    pub log_level: String,
    pub subcommand: Option<Subcommand>,
}

/// The commands: build a record, or read one.
#[derive(Clone, Debug)]
pub enum Subcommand {
    Build(Build),
    Read(Read),
}

} // verus!
