//! What can go wrong while a table function is resolved.
use polars_core::error::PolarsError;
use vstd::prelude::*;

verus! {

/// A failure to resolve a table function call.
pub enum TableFunctionError {
    /// The name is not a table function of this build; holds the name.
    UnsupportedFunction(String),
    /// The first argument is not a positional single-quoted string literal;
    /// holds the argument's SQL rendering.
    InvalidArgument(String),
    /// The call has no argument at all.
    MalformedArguments,
    /// The path names a cloud location that this build's scan of the
    /// function cannot read; holds the path.
    UnsupportedLocation(String),
    /// The engine could not build the scan; its error, unchanged.
    Scan(PolarsError),
}

/// Relies on `PolarsError`'s `Display`: the engine's own message.
#[verifier::external_body]
fn engine_message(e: &PolarsError) -> (r: String) {
    e.to_string()
}

impl TableFunctionError {
    /// A message for the user. A rejected name or argument is quoted in it
    /// verbatim; an engine error is reported with the engine's own message.
    pub fn message(&self) -> (r: String)
        ensures
            self matches TableFunctionError::UnsupportedFunction(name)
                ==> r@ == seq!['\''] + name@ + "' is not a supported table function"@,
            self matches TableFunctionError::InvalidArgument(sql)
                ==> r@ == "Only a single quoted string is accepted as the first parameter. Instead received: "@ + sql@,
            self is MalformedArguments
                ==> r@ == "a table function takes one argument, the path, and none was given"@,
            self matches TableFunctionError::UnsupportedLocation(path)
                ==> r@ == "cannot scan '"@ + path@ + "': cloud storage is not supported by this build"@,
    {
        match self {
            TableFunctionError::UnsupportedFunction(name) => {
                let mut r = String::from_str("'");
                r.append(name.as_str());
                r.append("' is not a supported table function");
                proof {
                    reveal_strlit("'");
                }
                r
            },
            TableFunctionError::InvalidArgument(sql) => {
                let mut r = String::from_str(
                    "Only a single quoted string is accepted as the first parameter. Instead received: ",
                );
                r.append(sql.as_str());
                r
            },
            TableFunctionError::MalformedArguments => String::from_str(
                "a table function takes one argument, the path, and none was given",
            ),
            TableFunctionError::UnsupportedLocation(path) => {
                let mut r = String::from_str("cannot scan '");
                r.append(path.as_str());
                r.append("': cloud storage is not supported by this build");
                r
            },
            TableFunctionError::Scan(e) => engine_message(e),
        }
    }
}

} // verus!
