//! The arguments of a run, as they were given: texts that are not read
//! yet.

use vstd::prelude::*;

verus! {

/// The arguments that every command has.
#[derive(Debug)]
pub struct GlobalArgs {
    /// The output directory. The set goes to a directory
    /// `set-<size>-<shard type>` below it.
    pub data_path: String,
    /// How the journal is split over files: `single`, `month` or `txn`.
    pub shard_type: String,
    /// How many transactions to generate: `1e1` to `1e6`.
    pub set_size: String,
    /// The time of the first transaction, where one was given.
    pub start: Option<String>,
    /// The time at which the set ends, where one was given.
    pub stop: Option<String>,
}

/// A copy of an optional text.
fn copy_of(text: &Option<String>) -> (r: Option<String>)
    ensures
        r == *text,
{
    match text {
        Some(s) => Some(s.clone()),
        None => None,
    }
}

impl Clone for GlobalArgs {
    fn clone(&self) -> (r: Self)
        ensures
            r == *self,
    {
        GlobalArgs {
            data_path: self.data_path.clone(),
            shard_type: self.shard_type.clone(),
            set_size: self.set_size.clone(),
            start: copy_of(&self.start),
            stop: copy_of(&self.stop),
        }
    }
}

/// What is to be generated.
#[derive(Debug)]
pub enum Commands {
    /// A journal for audit testing: every transaction has a stable
    /// identifier, so that the checksum of the set stays the same.
    /// Flavors: tackler.
    Audit { global_args: GlobalArgs, flavor: Option<String> },
    /// A journal in the simplest form, a baseline for the other two.
    /// Flavors: tackler, ledger.
    Plain { global_args: GlobalArgs, flavor: Option<String> },
    /// A journal with commodities. Flavors: tackler, ledger, beancount.
    Comm { global_args: GlobalArgs, flavor: Option<String> },
}

impl Clone for Commands {
    fn clone(&self) -> (r: Self)
        ensures
            r == *self,
    {
        match self {
            Commands::Audit { global_args, flavor } => Commands::Audit {
                global_args: global_args.clone(),
                flavor: copy_of(flavor),
            },
            Commands::Plain { global_args, flavor } => Commands::Plain {
                global_args: global_args.clone(),
                flavor: copy_of(flavor),
            },
            Commands::Comm { global_args, flavor } => Commands::Comm {
                global_args: global_args.clone(),
                flavor: copy_of(flavor),
            },
        }
    }
}

impl Commands {
    /// The arguments that every command has.
    pub open spec fn args(&self) -> GlobalArgs {
        match *self {
            Commands::Audit { global_args, .. } => global_args,
            Commands::Plain { global_args, .. } => global_args,
            Commands::Comm { global_args, .. } => global_args,
        }
    }

    /// The flavor that was asked for, where one was.
    pub open spec fn asked_flavor(&self) -> Option<String> {
        match *self {
            Commands::Audit { flavor, .. } => flavor,
            Commands::Plain { flavor, .. } => flavor,
            Commands::Comm { flavor, .. } => flavor,
        }
    }

    /// The arguments that every command has.
    pub fn global_args(&self) -> (args: &GlobalArgs)
        ensures
            *args == self.args(),
    {
        match self {
            Commands::Audit { global_args, .. } => global_args,
            Commands::Plain { global_args, .. } => global_args,
            Commands::Comm { global_args, .. } => global_args,
        }
    }

    /// The flavor that was asked for, where one was.
    pub fn flavor(&self) -> (flavor: &Option<String>)
        ensures
            *flavor == self.asked_flavor(),
    {
        match self {
            Commands::Audit { flavor, .. } => flavor,
            Commands::Plain { flavor, .. } => flavor,
            Commands::Comm { flavor, .. } => flavor,
        }
    }
}

/// The command line, read.
#[derive(Debug)]
pub struct Cli {
    pub command: Commands,
}

impl Cli {
    /// The command that was given.
    pub fn cmd(&self) -> (command: Commands)
        ensures
            command == self.command,
    {
        self.command.clone()
    }
}

} // verus!
