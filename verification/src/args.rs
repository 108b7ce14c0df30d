//! The commands the vault accepts, as plain data. The surrounding program
//! parses its command line into these and hands them to the library's
//! operations.

use vstd::prelude::*;

verus! {

/// One invocation of the vault: exactly one operation.
pub struct YorParser {
    pub command: Op,
}

/// The operations of the vault.
pub enum Op {
    /// Information about the program.
    About,
    /// List every database in the environment.
    ListDb,
    /// List every file in the file environment.
    ListFiles,
    SetValue(SetCommand),
    Get(GetCommand),
    Rem(RemCommand),
    SetDb(SetDbCommand),
    ListKeys(ListKeysCommand),
    Create(CreateCommand),
    Delete(DeleteCommand),
    Clear(ClearCommand),
}

/// Store a value under a key, optionally under a category tag, a chosen
/// database, or without password protection.
pub struct SetCommand {
    pub key: String,
    pub value: String,
    pub no_password: bool,
    pub category: Option<String>,
    pub db: Option<String>,
}

/// Retrieve the value of a key.
pub struct GetCommand {
    pub key: String,
}

/// Make the named database the default one.
pub struct SetDbCommand {
    pub name: String,
}

/// Remove a key from the database.
pub struct RemCommand {
    pub key: String,
}

/// Create a new, empty database.
pub struct CreateCommand {
    pub name: String,
}

/// Delete the named database.
pub struct DeleteCommand {
    pub name: String,
}

/// Clear the named environment directory.
pub struct ClearCommand {
    pub name: String,
}

/// List the keys of a database, by default the current one.
pub struct ListKeysCommand {
    pub db: Option<String>,
}

} // verus!
