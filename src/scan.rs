//! The scan that a table function call names, and the engine's plan and
//! error types as the verified code sees them.
//!
//! Building a scan opens and reads the file, so it is left to the caller:
//! resolution says exactly which scan to build, and the engine's answer is
//! handed back to be paired with the relation's name.
use polars_core::error::PolarsError;
use polars_lazy::frame::LazyFrame;
use vstd::prelude::*;

verus! {

/// A lazy relation: a plan that is not executed until it is collected.
#[verifier::external_type_specification]
#[verifier::external_body]
pub struct ExLazyFrame(LazyFrame);

/// An error reported by the engine while it builds a scan.
#[verifier::external_type_specification]
#[verifier::external_body]
pub struct ExPolarsError(PolarsError);

/// The file format of a scan; each is read with the engine's default
/// options.
#[derive(PartialEq, Eq, Structural, Clone, Copy, Debug)]
pub enum ScanFormat {
    Csv,
    Parquet,
    Ipc,
}

/// A scan to build: a format and the path to read, which also names the
/// resulting relation.
#[derive(Clone, Debug)]
pub struct ScanSource {
    pub format: ScanFormat,
    pub path: String,
}

} // verus!
