//! SQLite extensions a connection can load, named by the file name of the
//! library that implements each.

use vstd::prelude::*;

verus! {

/// An SQLite extension: the file name of its library, which SQLite's
/// `load_extension` searches for (adding the platform's suffix).
pub trait SqliteExtension {
    /// The file name of the extension's library.
    fn filename() -> &'static str;
}

/// The `uuid` extension, which generates and converts RFC 4122 UUIDs.
#[derive(Debug, Clone, Copy)]
pub struct SqliteUUIDExtension;

impl SqliteExtension for SqliteUUIDExtension {
    fn filename() -> (r: &'static str)
        ensures
            r@ == "uuid"@,
    {
        "uuid"
    }
}

/// The math functions extension, commonly shipped as `extension-functions`.
#[derive(Debug, Clone, Copy)]
pub struct SqliteMathFunctionsExtension;

impl SqliteExtension for SqliteMathFunctionsExtension {
    fn filename() -> (r: &'static str)
        ensures
            r@ == "extension-functions"@,
    {
        "extension-functions"
    }
}

/// The `spellfix1` extension, a virtual table for spelling correction.
#[derive(Debug, Clone, Copy)]
pub struct SqliteSpellfix1Extension;

impl SqliteExtension for SqliteSpellfix1Extension {
    fn filename() -> (r: &'static str)
        ensures
            r@ == "spellfix1"@,
    {
        "spellfix1"
    }
}

} // verus!
