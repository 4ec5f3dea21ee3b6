//! The settings of an import: where the two databases are and where the
//! fund/inventory list lies.

use vstd::prelude::*;

verus! {

/// The settings read from `config.toml`.
#[derive(Debug, Clone)]
pub struct Config {
    /// ODBC connection string of the MS Access catalogue.
    pub access_odbc_connection: String,
    /// ODBC connection string of the MS SQL Server archive.
    pub sql_server_odbc_connection: String,
    /// Path of the fund/inventory list.
    pub file_path: String,
}

} // verus!
