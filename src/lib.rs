//! Resolution of SQL table functions such as `read_csv('data.csv')` into lazy
//! scan plans.
//!
//! A table function name is parsed into a [`PolarsTableFunctions`] kind, and
//! the kind is then executed against the call's argument list: the single
//! positional string literal is taken as the path, and the call resolves to
//! the [`ScanSource`] to build, in the kind's format over that path. The
//! engine's answer for that scan is paired with the path, which names the
//! relation.
pub mod error;
pub mod location;
pub mod scan;
pub mod sql_arg;
pub mod table_functions;

pub use error::TableFunctionError;
pub use scan::{ScanFormat, ScanSource};
pub use sql_arg::{FunctionArg, FunctionArgExpr, SqlExpr, SqlValue, TableArg};
pub use table_functions::PolarsTableFunctions;
