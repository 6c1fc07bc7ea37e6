use xclang::cdb::{CompilationCommand, CompilationDatabase};
use xclang::xcodebuild_parser::{CommandData, XCodeBuildParser};

fn record(directory: &str, command: &str, file: &str) -> CommandData {
    CommandData {
        directory: directory.to_string(),
        command: command.to_string(),
        file: file.to_string(),
    }
}

fn entries(db: &CompilationDatabase) -> Vec<CommandData> {
    db.records().clone()
}

#[test]
fn database_finds_a_record_by_its_file() {
    let db = CompilationDatabase::from_records(vec![
        record("/proj", "clang -c /src/A.m -o /out/A.o", "/src/A.m"),
        record("/proj", "clang -c /src/B.m -o /out/B.o", "/src/B.m"),
    ]);
    assert_eq!(db.len(), 2);
    assert_eq!(
        db.record_for("/src/B.m"),
        Some(&record("/proj", "clang -c /src/B.m -o /out/B.o", "/src/B.m"))
    );
    assert_eq!(
        db.record_for("/src/A.m"),
        Some(&record("/proj", "clang -c /src/A.m -o /out/A.o", "/src/A.m"))
    );
    assert_eq!(db.record_for("/src/C.m"), None);
}

#[test]
fn path_is_compared_as_it_is_spelt() {
    let db = CompilationDatabase::from_records(vec![record("/proj", "cc", "/src/A.m")]);
    assert_eq!(db.record_for("/src/./A.m"), None);
    assert_eq!(db.record_for("/src/a.m"), None);
    assert_eq!(db.record_for("src/A.m"), None);
    assert_eq!(db.record_for("/src/A.m "), None);
    assert_eq!(db.record_for(""), None);
}

#[test]
fn same_path_gives_the_same_record_each_time() {
    let db = CompilationDatabase::from_records(vec![
        record("/proj", "cc one", "/src/A.m"),
        record("/proj", "cc two", "/src/B.m"),
    ]);
    let first = db.record_for("/src/A.m").cloned();
    let second = db.record_for("/src/A.m").cloned();
    assert_eq!(first, second);
    assert_eq!(first, Some(record("/proj", "cc one", "/src/A.m")));
    assert_eq!(db.record_for("/nowhere"), db.record_for("/nowhere"));
}

#[test]
fn later_record_of_a_file_wins() {
    let db = CompilationDatabase::from_records(vec![
        record("/proj", "clang -arch i386 -c /src/A.m -o a.o", "/src/A.m"),
        record("/proj", "clang -arch x86_64 -c /src/A.m -o a.o", "/src/A.m"),
    ]);
    assert_eq!(db.len(), 1);
    assert_eq!(
        entries(&db),
        vec![record("/proj", "clang -arch x86_64 -c /src/A.m -o a.o", "/src/A.m")]
    );
    assert_eq!(
        db.record_for("/src/A.m"),
        Some(&record("/proj", "clang -arch x86_64 -c /src/A.m -o a.o", "/src/A.m"))
    );
}

#[test]
fn kept_records_stay_in_their_order() {
    let db = CompilationDatabase::from_records(vec![
        record("/1", "one", "/a"),
        record("/2", "two", "/b"),
        record("/3", "three", "/a"),
        record("/4", "four", "/c"),
        record("/5", "five", "/b"),
        record("/6", "six", "/d"),
    ]);
    assert_eq!(
        entries(&db),
        vec![
            record("/3", "three", "/a"),
            record("/4", "four", "/c"),
            record("/5", "five", "/b"),
            record("/6", "six", "/d"),
        ]
    );
    assert_eq!(db.record_for("/a"), Some(&record("/3", "three", "/a")));
    assert_eq!(db.record_for("/b"), Some(&record("/5", "five", "/b")));
    assert_eq!(db.record_for("/c"), Some(&record("/4", "four", "/c")));
    assert_eq!(db.record_for("/d"), Some(&record("/6", "six", "/d")));
}

#[test]
fn empty_database_knows_no_file() {
    let db = CompilationDatabase::from_records(vec![]);
    assert_eq!(db.len(), 0);
    assert_eq!(db.record_for("/src/A.m"), None);
    assert!(db.compilation_command_for("/src/A.m").is_none());
}

#[test]
fn transcript_to_database() {
    let transcript = "CompileC /out/A.o /src/A.m normal\n    cd /proj\n    export LANG=en_US.US-ASCII\n    export PATH=\"/usr/bin\"\n    clang -c /src/A.m -o /out/A.o\n";
    let mut parser = XCodeBuildParser::new();
    let records = parser.parse_output(transcript).unwrap();
    assert_eq!(records, vec![record("/proj", "clang -c /src/A.m -o /out/A.o", "/src/A.m")]);
    let db = CompilationDatabase::from_records(records);
    assert_eq!(
        db.record_for("/src/A.m"),
        Some(&record("/proj", "clang -c /src/A.m -o /out/A.o", "/src/A.m"))
    );
    assert_eq!(db.record_for("/src/B.m"), None);
    assert_eq!(db.record_for("/out/A.o"), None);
    assert_eq!(db.record_for("/proj"), None);
}

#[test]
fn arguments_leave_out_the_compiler_and_the_files() {
    let command = CompilationCommand::new(&record(
        "/proj",
        "clang -x objective-c  -arch i386\t-DDEBUG=1 -c /src/A.m -o /out/A.o",
        "/src/A.m",
    ));
    assert_eq!(command.cwd, "/proj");
    assert_eq!(command.args, vec!["-x", "objective-c", "-arch", "i386", "-DDEBUG=1"]);
}

#[test]
fn short_invocation_has_no_arguments() {
    let none: Vec<String> = vec![];
    assert_eq!(CompilationCommand::new(&record("/p", "clang -c a.m -o a.o", "a.m")).args, none);
    assert_eq!(CompilationCommand::new(&record("/p", "clang a.m", "a.m")).args, none);
    assert_eq!(CompilationCommand::new(&record("/p", "", "a.m")).args, none);
    assert_eq!(
        CompilationCommand::new(&record("/p", "clang -g -c a.m -o a.o", "a.m")).args,
        vec!["-g"]
    );
}

#[test]
fn database_gives_the_command_of_a_file() {
    let db = CompilationDatabase::from_records(vec![
        record("/old", "clang -O0 -c /src/A.m -o a.o", "/src/A.m"),
        record("/new", "clang -O2 -Wall -c /src/A.m -o a.o", "/src/A.m"),
    ]);
    let command = db.compilation_command_for("/src/A.m").unwrap();
    assert_eq!(command.cwd, "/new");
    assert_eq!(command.args, vec!["-O2", "-Wall"]);
    assert!(db.compilation_command_for("/src/B.m").is_none());
}
