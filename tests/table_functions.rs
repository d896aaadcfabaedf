use polars_core::error::PolarsError;
use polars_lazy::frame::{LazyFileListReader, LazyFrame};
use polars_lazy::prelude::LazyCsvReader;
use table_functions::{
    FunctionArg, FunctionArgExpr, PolarsTableFunctions, ScanFormat, ScanSource, SqlExpr,
    SqlValue, TableArg, TableFunctionError,
};

fn literal(s: &str) -> TableArg {
    TableArg::new(
        FunctionArg::Unnamed(FunctionArgExpr::Expr(SqlExpr::Value(SqlValue::SingleQuotedString(
            s.to_string(),
        )))),
        format!("'{}'", s),
    )
}

fn invalid_text(r: Result<ScanSource, TableFunctionError>) -> String {
    match r {
        Err(TableFunctionError::InvalidArgument(t)) => t,
        _ => panic!("expected an invalid argument"),
    }
}

const KINDS: [PolarsTableFunctions; 3] = [
    PolarsTableFunctions::ReadCsv,
    PolarsTableFunctions::ReadParquet,
    PolarsTableFunctions::ReadIpc,
];

#[test]
fn parse_supported_names() {
    assert!(matches!(PolarsTableFunctions::parse("read_csv"), Ok(PolarsTableFunctions::ReadCsv)));
    assert!(matches!(
        PolarsTableFunctions::parse("read_parquet"),
        Ok(PolarsTableFunctions::ReadParquet)
    ));
    assert!(matches!(PolarsTableFunctions::parse("read_ipc"), Ok(PolarsTableFunctions::ReadIpc)));
}

#[test]
fn parse_through_from_str() {
    let k: PolarsTableFunctions = "read_parquet".parse().ok().unwrap();
    assert_eq!(k, PolarsTableFunctions::ReadParquet);
}

#[test]
fn from_str_matches_parse() {
    assert!(matches!("read_csv".parse::<PolarsTableFunctions>(), Ok(PolarsTableFunctions::ReadCsv)));
    assert!(matches!("read_ipc".parse::<PolarsTableFunctions>(), Ok(PolarsTableFunctions::ReadIpc)));
    match "Read_Parquet".parse::<PolarsTableFunctions>() {
        Err(TableFunctionError::UnsupportedFunction(n)) => assert_eq!(n, "Read_Parquet"),
        _ => panic!("names are case sensitive"),
    }
}

#[test]
fn parse_unknown_fn() {
    match PolarsTableFunctions::parse("unknown_fn") {
        Err(TableFunctionError::UnsupportedFunction(name)) => assert_eq!(name, "unknown_fn"),
        _ => panic!("unknown_fn must be unsupported"),
    }
}

#[test]
fn parse_is_exact_and_case_sensitive() {
    for name in ["READ_CSV", "Read_Csv", "read_csv ", " read_csv", "read_json", "", "read_"] {
        match PolarsTableFunctions::parse(name) {
            Err(TableFunctionError::UnsupportedFunction(n)) => assert_eq!(n, name),
            _ => panic!("{} must be unsupported", name),
        }
    }
}

#[test]
fn unsupported_message_quotes_name() {
    let e = PolarsTableFunctions::parse("unknown_fn").err().unwrap();
    assert_eq!(e.message(), "'unknown_fn' is not a supported table function");
}

#[test]
fn execute_csv_literal_names_csv_scan() {
    let args = [literal("a.csv")];
    let src = PolarsTableFunctions::ReadCsv.execute(&args).ok().unwrap();
    assert_eq!(src.format, ScanFormat::Csv);
    assert_eq!(src.path, "a.csv");
}

#[test]
fn execute_picks_the_kinds_format() {
    let formats = [ScanFormat::Csv, ScanFormat::Parquet, ScanFormat::Ipc];
    for (kind, format) in KINDS.into_iter().zip(formats) {
        let src = kind.execute(&[literal("data/file")]).ok().unwrap();
        assert_eq!(src.format, format);
        assert_eq!(src.path, "data/file");
    }
}

#[test]
fn execute_twice_gives_same_outcome() {
    let args = [literal("a.csv")];
    let s1 = PolarsTableFunctions::ReadCsv.execute(&args).ok().unwrap();
    let s2 = PolarsTableFunctions::ReadCsv.execute(&args).ok().unwrap();
    assert_eq!(s1.format, s2.format);
    assert_eq!(s1.path, s2.path);
    let named = [TableArg::new(
        FunctionArg::Named { name: "p".to_string(), arg: FunctionArgExpr::Wildcard },
        "p => *".to_string(),
    )];
    let t1 = invalid_text(PolarsTableFunctions::ReadIpc.execute(&named));
    let t2 = invalid_text(PolarsTableFunctions::ReadIpc.execute(&named));
    assert_eq!(t1, t2);
}

#[test]
fn with_scan_names_relation_by_path() {
    let r = PolarsTableFunctions::ReadCsv.with_scan("a.csv".to_string(), Ok(LazyFrame::default()));
    let (name, _) = r.ok().unwrap();
    assert_eq!(name, "a.csv");
}

#[test]
fn with_scan_passes_engine_error() {
    let err = PolarsError::ComputeError("cannot open".into());
    let r = PolarsTableFunctions::ReadIpc.with_scan("a.ipc".to_string(), Err(err));
    match r {
        Err(TableFunctionError::Scan(e)) => assert!(e.to_string().contains("cannot open")),
        _ => panic!("the engine's error must pass through"),
    }
}

#[test]
fn missing_file_scan_is_engine_error() {
    let src = PolarsTableFunctions::ReadCsv.execute(&[literal("no/such/dir/missing.csv")]).ok().unwrap();
    let scan = LazyCsvReader::new(&src.path).finish();
    let r = PolarsTableFunctions::ReadCsv.with_scan(src.path, scan);
    assert!(matches!(r, Err(TableFunctionError::Scan(_))));
}

#[test]
fn execute_named_argument_rejected() {
    let arg = TableArg::new(
        FunctionArg::Named {
            name: "foo".to_string(),
            arg: FunctionArgExpr::Expr(SqlExpr::Value(SqlValue::SingleQuotedString(
                "a.csv".to_string(),
            ))),
        },
        "foo => 'a.csv'".to_string(),
    );
    let r = PolarsTableFunctions::ReadCsv.execute(&[arg]);
    assert_eq!(invalid_text(r), "foo => 'a.csv'");
}

#[test]
fn execute_numeric_argument_rejected() {
    let arg = TableArg::new(
        FunctionArg::Unnamed(FunctionArgExpr::Expr(SqlExpr::Value(SqlValue::Number(
            "42".to_string(),
        )))),
        "42".to_string(),
    );
    let e = PolarsTableFunctions::ReadParquet.execute(&[arg]).err().unwrap();
    assert_eq!(
        e.message(),
        "Only a single quoted string is accepted as the first parameter. Instead received: 42"
    );
}

#[test]
fn execute_other_shapes_rejected() {
    let shapes = [
        (FunctionArg::Unnamed(FunctionArgExpr::Wildcard), "*"),
        (FunctionArg::Unnamed(FunctionArgExpr::QualifiedWildcard), "t.*"),
        (FunctionArg::Unnamed(FunctionArgExpr::Expr(SqlExpr::Other)), "path_column"),
        (FunctionArg::Unnamed(FunctionArgExpr::Expr(SqlExpr::Value(SqlValue::Other))), "\"a.csv\""),
    ];
    for (shape, sql) in shapes {
        let r = PolarsTableFunctions::ReadIpc.execute(&[TableArg::new(shape, sql.to_string())]);
        assert_eq!(invalid_text(r), sql);
    }
}

#[test]
fn execute_empty_arguments_malformed() {
    for kind in KINDS {
        let r = kind.execute(&[]);
        assert!(matches!(r, Err(TableFunctionError::MalformedArguments)));
    }
}

#[test]
fn malformed_arguments_message() {
    let e = PolarsTableFunctions::ReadCsv.execute(&[]).err().unwrap();
    assert_eq!(e.message(), "a table function takes one argument, the path, and none was given");
}

#[test]
fn only_first_argument_is_read() {
    let args = [
        TableArg::new(FunctionArg::Unnamed(FunctionArgExpr::Wildcard), "*".to_string()),
        literal("a.csv"),
    ];
    assert_eq!(invalid_text(PolarsTableFunctions::ReadCsv.execute(&args)), "*");
    let args = [literal("a.csv"), literal("b.csv")];
    assert_eq!(PolarsTableFunctions::ReadCsv.execute(&args).ok().unwrap().path, "a.csv");
}

#[test]
fn literal_path_round_trip() {
    for s in ["a.csv", "", "dir with spaces/x.parquet", "it''s.ipc", "/tmp/*.csv", "./\u{dc}nicode.csv"] {
        let arg = TableArg::single_quoted(s);
        assert_eq!(arg.sql, format!("'{}'", s));
        let path = PolarsTableFunctions::ReadCsv.get_file_path_from_arg(&arg).ok().unwrap();
        assert_eq!(path, s);
        let src = PolarsTableFunctions::ReadCsv.execute(&[arg]).ok().unwrap();
        assert_eq!(src.path, s);
    }
}

#[test]
fn path_of_argument() {
    assert_eq!(literal("x.csv").path(), Some("x.csv".to_string()));
    let named = TableArg::new(
        FunctionArg::Named { name: "p".to_string(), arg: FunctionArgExpr::Wildcard },
        "p => *".to_string(),
    );
    assert_eq!(named.path(), None);
}

#[test]
fn parquet_cloud_location_refused() {
    for path in ["s3://b/a.parquet", "file:///tmp/a.parquet", "https://h/a.parquet"] {
        match PolarsTableFunctions::ReadParquet.execute(&[literal(path)]) {
            Err(TableFunctionError::UnsupportedLocation(p)) => assert_eq!(p, path),
            _ => panic!("{} must be refused", path),
        }
    }
}

#[test]
fn cloud_glob_refused_for_csv_and_ipc() {
    for kind in [PolarsTableFunctions::ReadCsv, PolarsTableFunctions::ReadIpc] {
        for path in ["s3://bucket/*.csv", "gs://b/part?.ipc", "az://c/[ab].csv"] {
            match kind.execute(&[literal(path)]) {
                Err(TableFunctionError::UnsupportedLocation(p)) => assert_eq!(p, path),
                _ => panic!("{} must be refused", path),
            }
        }
    }
}

#[test]
fn cloud_path_without_glob_accepted_for_csv_and_ipc() {
    let src = PolarsTableFunctions::ReadCsv.execute(&[literal("s3://bucket/a.csv")]).ok().unwrap();
    assert_eq!(src.format, ScanFormat::Csv);
    assert_eq!(src.path, "s3://bucket/a.csv");
    let src = PolarsTableFunctions::ReadIpc.execute(&[literal("s3:/not-a-url/*.ipc")]).ok().unwrap();
    assert_eq!(src.path, "s3:/not-a-url/*.ipc");
}

#[test]
fn unsupported_location_message() {
    let e = PolarsTableFunctions::ReadParquet.execute(&[literal("s3://b/a.parquet")]).err().unwrap();
    assert_eq!(
        e.message(),
        "cannot scan 's3://b/a.parquet': cloud storage is not supported by this build"
    );
}
