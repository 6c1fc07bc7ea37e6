use xclang::cdb::CompilationDatabase;
use xclang::diagnostic::Diagnostic;
use xclang::helpers::{
    command_for, database_directories, database_directory, diagnostics_of, parse_location,
    syntax_check, QueryError,
};
use xclang::source_location::SourceLocation;
use xclang::types::CXDiagnosticSeverity::{
    CXDiagnostic_Error, CXDiagnostic_Fatal, CXDiagnostic_Warning,
};
use xclang::xcodebuild_parser::{CommandData, ParseError};

fn place(file: &str, line: usize, column: usize) -> SourceLocation {
    SourceLocation { file: file.to_string(), line, column, offset: 0 }
}

fn strings(v: &[&str]) -> Vec<String> {
    v.iter().map(|s| s.to_string()).collect()
}

#[test]
fn findings_are_listed_one_to_a_line() {
    let unused = Diagnostic::new(
        "Unused Entity Issue".to_string(),
        place("/src/AppDelegate.m", 17, 15),
        CXDiagnostic_Warning,
        "unused variable 'testString'".to_string(),
        "/src/AppDelegate.m:17:15: warning: unused variable 'testString' [-Wunused-variable]"
            .to_string(),
    );
    let missing = Diagnostic::new(
        "Semantic Issue".to_string(),
        place("/src/AppDelegate.m", 20, 5),
        CXDiagnostic_Error,
        "use of undeclared identifier 'x'".to_string(),
        "/src/AppDelegate.m:20:5: error: use of undeclared identifier 'x'".to_string(),
    );
    assert_eq!(
        syntax_check(&vec![unused, missing]),
        "/src/AppDelegate.m:17:15: warning: unused variable 'testString' [-Wunused-variable]\n/src/AppDelegate.m:20:5: error: use of undeclared identifier 'x'\n"
    );
    assert_eq!(syntax_check(&vec![]), "");
}

#[test]
fn finding_keeps_what_it_is_made_of() {
    let d = Diagnostic::new(
        "Parse Issue".to_string(),
        place("/src/A.m", 3, 9),
        CXDiagnostic_Error,
        "expected ';'".to_string(),
        "/src/A.m:3:9: error: expected ';'".to_string(),
    );
    assert_eq!(d.category, "Parse Issue");
    assert_eq!(d.location, place("/src/A.m", 3, 9));
    assert_eq!(d.severity, CXDiagnostic_Error);
    assert_eq!(d.spelling, "expected ';'");
    assert_eq!(d.formatted, "/src/A.m:3:9: error: expected ';'");
}

#[test]
fn engine_failure_is_one_finding() {
    let found = diagnostics_of("/src/A.m", Err("unable to parse".to_string()));
    assert_eq!(found.len(), 1);
    assert_eq!(found[0].severity, CXDiagnostic_Fatal);
    assert_eq!(found[0].spelling, "unable to parse");
    assert_eq!(found[0].category, "");
    assert_eq!(found[0].location, place("/src/A.m", 0, 0));
    assert_eq!(found[0].formatted, "/src/A.m: fatal error: unable to parse");
    assert_eq!(syntax_check(&found), "/src/A.m: fatal error: unable to parse\n");
}

#[test]
fn findings_of_the_engine_are_passed_on() {
    let d = Diagnostic::new(
        "".to_string(),
        place("/src/A.m", 1, 1),
        CXDiagnostic_Warning,
        "w".to_string(),
        "/src/A.m:1:1: warning: w".to_string(),
    );
    let found = diagnostics_of("/src/A.m", Ok(vec![d]));
    assert_eq!(found.len(), 1);
    assert_eq!(found[0].formatted, "/src/A.m:1:1: warning: w");
    assert_eq!(diagnostics_of("/src/A.m", Ok(vec![])).len(), 0);
}

#[test]
fn location_is_a_line_and_a_column() {
    assert!(matches!(parse_location("16:18"), Ok((16, 18))));
    assert!(matches!(parse_location("10:10"), Ok((10, 10))));
    assert!(matches!(parse_location("0:0"), Ok((0, 0))));
    assert!(matches!(parse_location("007:08"), Ok((7, 8))));
    let most = format!("{}:{}", usize::MAX, 1);
    assert!(matches!(parse_location(&most), Ok((usize::MAX, 1))));
}

#[test]
fn malformed_location_is_refused() {
    for text in [
        "", ":", "16", "16:", ":18", "16:18:3", "a:b", "16:1b", "16 :18", "16: 18", "-1:5", "1:+5",
        "1.5:3", "16;18", "99999999999999999999999999:1", "1:99999999999999999999999999",
    ] {
        assert!(matches!(parse_location(text), Err(QueryError::LocationFormat)), "{:?}", text);
    }
}

#[test]
fn directories_above_a_file_are_listed_nearest_first() {
    assert_eq!(
        database_directories("/Users/me/proj/App/AppDelegate.m"),
        strings(&["/Users/me/proj/App", "/Users/me/proj", "/Users/me", "/Users", "/"])
    );
    assert_eq!(database_directories("/a.m"), strings(&["/"]));
    assert_eq!(database_directories("/"), strings(&[]));
    assert_eq!(database_directories(""), strings(&[]));
    assert_eq!(database_directories("a.m"), strings(&[]));
    assert_eq!(database_directories("proj/src/a.m"), strings(&["proj/src", "proj"]));
}

fn candidates(directories: &[&str], holds: &[bool]) -> Vec<(String, bool)> {
    directories.iter().map(|d| d.to_string()).zip(holds.iter().cloned()).collect()
}

#[test]
fn first_directory_with_a_database_is_used() {
    let directories = ["/a/b/c", "/a/b", "/a", "/"];
    assert!(matches!(
        database_directory(candidates(&directories, &[false, true, false, true])),
        Ok(d) if d == "/a/b"
    ));
    assert!(matches!(
        database_directory(candidates(&directories, &[false, false, false, true])),
        Ok(d) if d == "/"
    ));
    assert!(matches!(
        database_directory(candidates(&directories, &[true, true, true, true])),
        Ok(d) if d == "/a/b/c"
    ));
}

#[test]
fn no_directory_with_a_database_is_an_error() {
    assert!(matches!(
        database_directory(candidates(&["/a/b", "/a", "/"], &[false, false, false])),
        Err(QueryError::DatabaseNotFound)
    ));
    assert!(matches!(database_directory(vec![]), Err(QueryError::DatabaseNotFound)));
}

#[test]
fn file_without_record_is_an_error_of_its_own() {
    let db = CompilationDatabase::from_records(vec![CommandData {
        directory: "/proj".to_string(),
        command: "clang -fobjc-arc -c /src/A.m -o /out/A.o".to_string(),
        file: "/src/A.m".to_string(),
    }]);
    let command = command_for(&db, "/src/A.m").unwrap();
    assert_eq!(command.cwd, "/proj");
    assert_eq!(command.args, vec!["-fobjc-arc"]);
    assert!(matches!(command_for(&db, "/src/B.m"), Err(QueryError::FileNotInDatabase)));
}

#[test]
fn each_error_has_its_words() {
    assert_eq!(
        QueryError::DatabaseNotFound.message(),
        "Unable to find directory with compile_commands.json"
    );
    assert_eq!(
        QueryError::FileNotInDatabase.message(),
        "Unable to find compilation command in the database"
    );
    assert_eq!(QueryError::LocationFormat.message(), "Location should be in format line:column");
    assert_eq!(
        QueryError::EngineFailure("Unable to create compilation database".to_string()).message(),
        "Unable to create compilation database"
    );
    assert_eq!(
        QueryError::ParseLogMalformed(ParseError::NoSourceFile { line: 42 }).message(),
        "Unable to find file path in command at line 42"
    );
}
