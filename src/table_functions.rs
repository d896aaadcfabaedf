//! The registry of table functions and their resolution.
use crate::error::TableFunctionError;
use crate::location::{cloud_url, glob_pattern, has_glob_char, is_cloud_url};
use crate::scan::{ScanFormat, ScanSource};
use crate::sql_arg::{path_literal, FunctionArg, FunctionArgExpr, SqlExpr, SqlValue, TableArg};
use polars_core::error::PolarsError;
use polars_lazy::frame::LazyFrame;
use vstd::prelude::*;

verus! {

/// The table functions this build supports, one per scan backend.
#[derive(PartialEq, Eq, Structural, Clone, Copy, Debug)]
pub enum PolarsTableFunctions {
    /// `read_csv('path/to/file.csv')`
    ReadCsv,
    /// `read_parquet('path/to/file.parquet')`
    ReadParquet,
    /// `read_ipc('path/to/file.ipc')`
    ReadIpc,
}

/// The SQL name under which a table function is called.
pub open spec fn name_of(kind: PolarsTableFunctions) -> Seq<char> {
    match kind {
        PolarsTableFunctions::ReadCsv => "read_csv"@,
        PolarsTableFunctions::ReadParquet => "read_parquet"@,
        PolarsTableFunctions::ReadIpc => "read_ipc"@,
    }
}

/// The table function called `name`, if any: names match exactly, case
/// included.
pub open spec fn kind_named(name: Seq<char>) -> Option<PolarsTableFunctions> {
    if name == name_of(PolarsTableFunctions::ReadCsv) {
        Some(PolarsTableFunctions::ReadCsv)
    } else if name == name_of(PolarsTableFunctions::ReadParquet) {
        Some(PolarsTableFunctions::ReadParquet)
    } else if name == name_of(PolarsTableFunctions::ReadIpc) {
        Some(PolarsTableFunctions::ReadIpc)
    } else {
        None
    }
}

/// The paths that the scan of `kind` cannot read in this build: any cloud
/// location for Parquet, a glob pattern on a cloud location for CSV and IPC.
pub open spec fn refuses_path(kind: PolarsTableFunctions, path: Seq<char>) -> bool {
    match kind {
        PolarsTableFunctions::ReadParquet => is_cloud_url(path),
        _ => is_cloud_url(path) && has_glob_char(path),
    }
}

/// The format that the scan of `kind` reads.
pub open spec fn format_of(kind: PolarsTableFunctions) -> ScanFormat {
    match kind {
        PolarsTableFunctions::ReadCsv => ScanFormat::Csv,
        PolarsTableFunctions::ReadParquet => ScanFormat::Parquet,
        PolarsTableFunctions::ReadIpc => ScanFormat::Ipc,
    }
}

/// What resolving a call of `kind` with the arguments `args` gives. With no
/// argument the call is malformed; a first argument that is not a positional
/// single-quoted literal is rejected with its SQL rendering; a path that this
/// build cannot scan is refused with the path; otherwise the call names a
/// scan of `kind`'s format over the literal path, exactly as written.
pub open spec fn resolves_to(
    kind: PolarsTableFunctions,
    args: Seq<TableArg>,
    r: Result<ScanSource, TableFunctionError>,
) -> bool {
    if args.len() == 0 {
        r matches Err(TableFunctionError::MalformedArguments)
    } else {
        match path_literal(args[0].arg) {
            None => r matches Err(TableFunctionError::InvalidArgument(t)) && t@ == args[0].sql@,
            Some(p) => if refuses_path(kind, p) {
                r matches Err(TableFunctionError::UnsupportedLocation(t)) && t@ == p
            } else {
                r matches Ok(src) && src.format == format_of(kind) && src.path@ == p
            },
        }
    }
}

/// Whether two strings hold the same characters.
fn same_str(a: &str, b: &str) -> (r: bool)
    ensures
        r == (a@ == b@),
{
    let n = a.unicode_len();
    if n != b.unicode_len() {
        return false;
    }
    let mut i: usize = 0;
    while i < n
        invariant
            n == a@.len(),
            n == b@.len(),
            i <= n,
            forall|j: int| 0 <= j < i ==> a@[j] == b@[j],
        decreases n - i,
    {
        if a.get_char(i) != b.get_char(i) {
            return false;
        }
        i = i + 1;
    }
    proof {
        assert(a@ =~= b@);
    }
    true
}

/// Every table function is parsed back from its own name, and from no other
/// string: the names are the single source of the kinds.
pub proof fn lemma_parse_name_of(kind: PolarsTableFunctions)
    ensures
        kind_named(name_of(kind)) == Some(kind),
        forall|name: Seq<char>| kind_named(name) == Some(kind) ==> name == name_of(kind),
{
    reveal_strlit("read_csv");
    reveal_strlit("read_parquet");
    reveal_strlit("read_ipc");
    assert(name_of(PolarsTableFunctions::ReadCsv).len() != name_of(PolarsTableFunctions::ReadParquet).len());
    assert(name_of(PolarsTableFunctions::ReadParquet).len() != name_of(PolarsTableFunctions::ReadIpc).len());
    assert(name_of(PolarsTableFunctions::ReadCsv)[5] != name_of(PolarsTableFunctions::ReadIpc)[5]);
}

/// A named argument, or a numeric literal, in first place is rejected as an
/// invalid argument: the call neither succeeds nor fails otherwise.
pub proof fn lemma_named_or_numeric_rejected(
    kind: PolarsTableFunctions,
    args: Seq<TableArg>,
    r: Result<ScanSource, TableFunctionError>,
)
    requires
        args.len() > 0,
        args[0].arg is Named || args[0].arg matches FunctionArg::Unnamed(
            FunctionArgExpr::Expr(SqlExpr::Value(SqlValue::Number(_))),
        ),
        resolves_to(kind, args, r),
    ensures
        r matches Err(TableFunctionError::InvalidArgument(t)) && t@ == args[0].sql@,
{
}

/// Resolving the same call twice gives the same outcome: the same scan,
/// of the same format over the same path, or the same rejection.
pub proof fn lemma_resolution_repeatable(
    kind: PolarsTableFunctions,
    args: Seq<TableArg>,
    r1: Result<ScanSource, TableFunctionError>,
    r2: Result<ScanSource, TableFunctionError>,
)
    requires
        resolves_to(kind, args, r1),
        resolves_to(kind, args, r2),
    ensures
        r1 is Ok <==> r2 is Ok,
        r1 is Ok ==> r1->Ok_0.format == r2->Ok_0.format && r1->Ok_0.path@ == r2->Ok_0.path@,
        r1 matches Err(TableFunctionError::MalformedArguments) ==> r2 matches Err(TableFunctionError::MalformedArguments),
        r1 matches Err(TableFunctionError::InvalidArgument(t1)) ==> r2 matches Err(TableFunctionError::InvalidArgument(t2)) && t1@ == t2@,
        r1 matches Err(TableFunctionError::UnsupportedLocation(t1)) ==> r2 matches Err(TableFunctionError::UnsupportedLocation(t2)) && t1@ == t2@,
{
}

/// A call whose only argument is the literal `'s'` names a scan of the
/// function's format over exactly `s`, for every `s` that this build can
/// scan.
pub proof fn lemma_literal_path_round_trip(
    kind: PolarsTableFunctions,
    s: String,
    sql: String,
    r: Result<ScanSource, TableFunctionError>,
)
    requires
        !refuses_path(kind, s@),
        resolves_to(
            kind,
            seq![(TableArg {
                arg: FunctionArg::Unnamed(FunctionArgExpr::Expr(SqlExpr::Value(SqlValue::SingleQuotedString(s)))),
                sql,
            })],
            r,
        ),
    ensures
        r matches Ok(src) && src.format == format_of(kind) && src.path@ == s@,
{
}

impl PolarsTableFunctions {
    /// The table function called `name`. Matching is exact and case
    /// sensitive; any other name is `UnsupportedFunction`, holding the name.
    pub fn parse(name: &str) -> (r: Result<PolarsTableFunctions, TableFunctionError>)
        ensures
            match kind_named(name@) {
                Some(k) => r == Ok::<PolarsTableFunctions, TableFunctionError>(k),
                None => r matches Err(TableFunctionError::UnsupportedFunction(n)) && n@ == name@,
            },
    {
        proof {
            reveal_strlit("read_csv");
            reveal_strlit("read_parquet");
            reveal_strlit("read_ipc");
        }
        if same_str(name, "read_csv") {
            Ok(PolarsTableFunctions::ReadCsv)
        } else if same_str(name, "read_parquet") {
            Ok(PolarsTableFunctions::ReadParquet)
        } else if same_str(name, "read_ipc") {
            Ok(PolarsTableFunctions::ReadIpc)
        } else {
            Err(TableFunctionError::UnsupportedFunction(String::from_str(name)))
        }
    }

    /// The path named by a table function's argument: the string of a
    /// positional single-quoted literal, used verbatim. Any other shape is
    /// `InvalidArgument`, holding the argument's SQL rendering.
    pub fn get_file_path_from_arg(&self, arg: &TableArg) -> (r: Result<String, TableFunctionError>)
        ensures
            match path_literal(arg.arg) {
                Some(p) => r matches Ok(s) && s@ == p,
                None => r matches Err(TableFunctionError::InvalidArgument(t)) && t@ == arg.sql@,
            },
    {
        match arg.path() {
            Some(p) => Ok(p),
            None => Err(TableFunctionError::InvalidArgument(arg.sql.clone())),
        }
    }

    /// The path named by the first argument of a call; a call without
    /// arguments is `MalformedArguments`.
    fn path_from_args(&self, args: &[TableArg]) -> (r: Result<String, TableFunctionError>)
        ensures
            args@.len() == 0 ==> r matches Err(TableFunctionError::MalformedArguments),
            args@.len() > 0 ==> match path_literal(args@[0].arg) {
                Some(p) => r matches Ok(s) && s@ == p,
                None => r matches Err(TableFunctionError::InvalidArgument(t)) && t@ == args@[0].sql@,
            },
    {
        if args.len() == 0 {
            Err(TableFunctionError::MalformedArguments)
        } else {
            self.get_file_path_from_arg(&args[0])
        }
    }

    /// Pairs a path with the outcome of building its scan: the scan named by
    /// the path, or the engine's error passed through unchanged.
    pub fn with_scan(
        &self,
        path: String,
        scan: Result<LazyFrame, PolarsError>,
    ) -> (r: Result<(String, LazyFrame), TableFunctionError>)
        ensures
            match scan {
                Ok(lf) => r == Ok::<(String, LazyFrame), TableFunctionError>((path, lf)),
                Err(e) => r == Err::<(String, LazyFrame), TableFunctionError>(TableFunctionError::Scan(e)),
            },
    {
        match scan {
            Ok(lf) => Ok((path, lf)),
            Err(e) => Err(TableFunctionError::Scan(e)),
        }
    }

    /// `read_csv(path)`: a CSV scan over the literal path, with the reader's
    /// default options.
    fn read_csv(&self, args: &[TableArg]) -> (r: Result<ScanSource, TableFunctionError>)
        requires
            *self == PolarsTableFunctions::ReadCsv,
        ensures
            resolves_to(*self, args@, r),
    {
        match self.path_from_args(args) {
            Ok(path) => if cloud_url(path.as_str()) && glob_pattern(path.as_str()) {
                Err(TableFunctionError::UnsupportedLocation(path))
            } else {
                Ok(ScanSource { format: ScanFormat::Csv, path })
            },
            Err(e) => Err(e),
        }
    }

    /// `read_parquet(path)`: a Parquet scan over the literal path, with
    /// default options.
    fn read_parquet(&self, args: &[TableArg]) -> (r: Result<ScanSource, TableFunctionError>)
        requires
            *self == PolarsTableFunctions::ReadParquet,
        ensures
            resolves_to(*self, args@, r),
    {
        match self.path_from_args(args) {
            Ok(path) => if cloud_url(path.as_str()) {
                Err(TableFunctionError::UnsupportedLocation(path))
            } else {
                Ok(ScanSource { format: ScanFormat::Parquet, path })
            },
            Err(e) => Err(e),
        }
    }

    /// `read_ipc(path)`: an IPC scan over the literal path, with default
    /// options.
    fn read_ipc(&self, args: &[TableArg]) -> (r: Result<ScanSource, TableFunctionError>)
        requires
            *self == PolarsTableFunctions::ReadIpc,
        ensures
            resolves_to(*self, args@, r),
    {
        match self.path_from_args(args) {
            Ok(path) => if cloud_url(path.as_str()) && glob_pattern(path.as_str()) {
                Err(TableFunctionError::UnsupportedLocation(path))
            } else {
                Ok(ScanSource { format: ScanFormat::Ipc, path })
            },
            Err(e) => Err(e),
        }
    }

    /// Resolves a call of this table function into the scan it names: the
    /// path from the first argument, read in this function's format. The
    /// path is kept exactly as written in the literal, and names the
    /// relation. A path that this build cannot scan is refused.
    pub fn execute(&self, args: &[TableArg]) -> (r: Result<ScanSource, TableFunctionError>)
        ensures
            resolves_to(*self, args@, r),
    {
        match self {
            PolarsTableFunctions::ReadCsv => self.read_csv(args),
            PolarsTableFunctions::ReadParquet => self.read_parquet(args),
            PolarsTableFunctions::ReadIpc => self.read_ipc(args),
        }
    }
}

impl core::str::FromStr for PolarsTableFunctions {
    type Err = TableFunctionError;

    fn from_str(s: &str) -> (r: Result<Self, Self::Err>)
        ensures
            match kind_named(s@) {
                Some(k) => r == Ok::<PolarsTableFunctions, TableFunctionError>(k),
                None => r matches Err(TableFunctionError::UnsupportedFunction(n)) && n@ == s@,
            },
    {
        PolarsTableFunctions::parse(s)
    }
}

} // verus!
