//! The entry points of the contract through which stake is bonded with,
//! unbonded from and released by the mint.
//!
//! The contract itself is a sequence of calls into its host.  What it decides
//! is here: which entry point a command names, and the code under which each
//! of its errors is reported.

use vstd::prelude::*;

verus! {

/// What the contract can be asked to do.
#[derive(Clone, Copy, Debug, PartialEq, Eq)]
pub enum EntryPoint {
    /// Bond an amount from a new purse.
    Bond,
    /// Unbond an amount.
    Unbond,
    /// Release a founding validator's stake.
    Release,
    /// Bond an amount from the account's main purse.
    BondFromMainPurse,
    /// Transfer an amount to a new account.
    SeedNewAccount,
}

/// Why the contract gave up.
#[derive(Clone, Copy, Debug, PartialEq, Eq)]
pub enum Error {
    /// The transfer to the new account failed.
    UnableToSeedAccount,
    /// The command names no entry point.
    UnknownCommand,
}

impl Error {
    /// The code under which the error is reported: the errors are numbered
    /// from zero in the order of their declaration.
    pub open spec fn code_spec(self) -> u16 {
        match self {
            Error::UnableToSeedAccount => 0,
            Error::UnknownCommand => 1,
        }
    }

    /// Returns the code under which the error is reported to the host.
    pub fn code(&self) -> (code: u16)
        ensures
            code == self.code_spec(),
    {
        match self {
            Error::UnableToSeedAccount => 0,
            Error::UnknownCommand => 1,
        }
    }
}

/// The entry point that `command` names, if it names one.
pub open spec fn entry_point_spec(command: Seq<char>) -> Option<EntryPoint> {
    if command == "bond"@ {
        Some(EntryPoint::Bond)
    } else if command == "unbond"@ {
        Some(EntryPoint::Unbond)
    } else if command == "release"@ {
        Some(EntryPoint::Release)
    } else if command == "bond-from-main-purse"@ {
        Some(EntryPoint::BondFromMainPurse)
    } else if command == "seed_new_account"@ {
        Some(EntryPoint::SeedNewAccount)
    } else {
        None
    }
}

/// Whether `command` is the name `name`.
fn is_named(command: &str, name: &str) -> (same: bool)
    ensures
        same == (command@ == name@),
{
    command.to_owned() == name.to_owned()
}

/// Returns the entry point that `command` names, or the error for a command
/// that names none.
pub fn entry_point(command: &str) -> (result: Result<EntryPoint, Error>)
    ensures
        result == match entry_point_spec(command@) {
            Some(entry_point) => Ok::<EntryPoint, Error>(entry_point),
            None => Err::<EntryPoint, Error>(Error::UnknownCommand),
        },
{
    if is_named(command, "bond") {
        Ok(EntryPoint::Bond)
    } else if is_named(command, "unbond") {
        Ok(EntryPoint::Unbond)
    } else if is_named(command, "release") {
        Ok(EntryPoint::Release)
    } else if is_named(command, "bond-from-main-purse") {
        Ok(EntryPoint::BondFromMainPurse)
    } else if is_named(command, "seed_new_account") {
        Ok(EntryPoint::SeedNewAccount)
    } else {
        Err(Error::UnknownCommand)
    }
}

} // verus!
