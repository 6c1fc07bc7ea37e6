use xclang::rfsevents::FSEventStreamEventFlags::{
    self, kFSEventStreamEventFlagItemCreated, kFSEventStreamEventFlagItemIsFile,
    kFSEventStreamEventFlagItemIsSymlink, kFSEventStreamEventFlagItemModified,
    kFSEventStreamEventFlagMustScanSubDirs, kFSEventStreamEventFlagNone,
    kFSEventStreamEventFlagUnmount,
};
use xclang::types::CXTranslationUnit_Flags::{
    CXTranslationUnit_CXXChainedPCH, CXTranslationUnit_CacheCompletionResults,
    CXTranslationUnit_DetailedPreprocessingRecord, CXTranslationUnit_ForSerialization,
    CXTranslationUnit_IncludeBriefCommentsInCodeCompletion, CXTranslationUnit_Incomplete,
    CXTranslationUnit_None, CXTranslationUnit_PrecompiledPreamble,
    CXTranslationUnit_SkipFunctionBodies,
};
use xclang::types::{
    CXAvailabilityKind, CXCompilationDatabase_Error, CXCompletionChunkKind, CXDiagnosticSeverity,
};
use xclang::xcodebuild::{XCodeBuildWatcher, DATABASE_FILE};
use xclang::cdb::CompilationDatabase;
use xclang::helpers::{database_of, QueryError};
use xclang::xcodebuild_parser::{CommandData, ParseError};

#[test]
fn availability_goes_by_number() {
    assert_eq!(CXAvailabilityKind::CXAvailability_Available.to_uint(), 0);
    assert_eq!(CXAvailabilityKind::CXAvailability_Deprecated.to_uint(), 1);
    assert_eq!(CXAvailabilityKind::CXAvailability_NotAvailable.to_uint(), 2);
    assert_eq!(CXAvailabilityKind::CXAvailability_NotAccessible.to_uint(), 3);
    assert_eq!(CXAvailabilityKind::COUNT, 4);
    assert_eq!(CXAvailabilityKind::from_uint(4), None);
    for v in 0..CXAvailabilityKind::COUNT {
        assert_eq!(CXAvailabilityKind::from_uint(v).map(|k| k.to_uint()), Some(v));
    }
}

#[test]
fn chunk_kind_goes_by_number() {
    assert_eq!(CXCompletionChunkKind::CXCompletionChunk_Optional.to_uint(), 0);
    assert_eq!(CXCompletionChunkKind::CXCompletionChunk_TypedText.to_uint(), 1);
    assert_eq!(CXCompletionChunkKind::CXCompletionChunk_Placeholder.to_uint(), 3);
    assert_eq!(CXCompletionChunkKind::CXCompletionChunk_LeftParen.to_uint(), 6);
    assert_eq!(CXCompletionChunkKind::CXCompletionChunk_Comma.to_uint(), 14);
    assert_eq!(CXCompletionChunkKind::CXCompletionChunk_ResultType.to_uint(), 15);
    assert_eq!(CXCompletionChunkKind::CXCompletionChunk_HorizontalSpace.to_uint(), 19);
    assert_eq!(CXCompletionChunkKind::CXCompletionChunk_VerticalSpace.to_uint(), 20);
    assert_eq!(
        CXCompletionChunkKind::from_uint(15),
        Some(CXCompletionChunkKind::CXCompletionChunk_ResultType)
    );
    assert_eq!(CXCompletionChunkKind::from_uint(21), None);
    assert_eq!(CXCompletionChunkKind::from_uint(usize::MAX), None);
    assert_eq!(CXCompletionChunkKind::COUNT, 21);
    for v in 0..CXCompletionChunkKind::COUNT {
        assert_eq!(CXCompletionChunkKind::from_uint(v).map(|k| k.to_uint()), Some(v));
    }
}

#[test]
fn severity_goes_by_number() {
    assert_eq!(CXDiagnosticSeverity::CXDiagnostic_Ignored.to_uint(), 0);
    assert_eq!(CXDiagnosticSeverity::CXDiagnostic_Warning.to_uint(), 3);
    assert_eq!(CXDiagnosticSeverity::CXDiagnostic_Fatal.to_uint(), 5);
    assert_eq!(CXDiagnosticSeverity::from_uint(4), Some(CXDiagnosticSeverity::CXDiagnostic_Error));
    assert_eq!(CXDiagnosticSeverity::from_uint(6), None);
    assert_eq!(CXDiagnosticSeverity::COUNT, 6);
    for v in 0..CXDiagnosticSeverity::COUNT {
        assert_eq!(CXDiagnosticSeverity::from_uint(v).map(|k| k.to_uint()), Some(v));
    }
}

#[test]
fn parse_options_are_bits() {
    let all = [
        (CXTranslationUnit_None, 0x00),
        (CXTranslationUnit_DetailedPreprocessingRecord, 0x01),
        (CXTranslationUnit_Incomplete, 0x02),
        (CXTranslationUnit_PrecompiledPreamble, 0x04),
        (CXTranslationUnit_CacheCompletionResults, 0x08),
        (CXTranslationUnit_ForSerialization, 0x10),
        (CXTranslationUnit_CXXChainedPCH, 0x20),
        (CXTranslationUnit_SkipFunctionBodies, 0x40),
        (CXTranslationUnit_IncludeBriefCommentsInCodeCompletion, 0x80),
    ];
    for (flag, bits) in all {
        assert_eq!(flag.to_bits(), bits);
    }
}

#[test]
fn database_that_cannot_be_read_is_not_loaded() {
    assert!(matches!(
        CompilationDatabase::from_directory(None),
        Err(CXCompilationDatabase_Error::CXCompilationDatabase_CanNotLoadDatabase)
    ));
    assert_ne!(
        CXCompilationDatabase_Error::CXCompilationDatabase_NoError,
        CXCompilationDatabase_Error::CXCompilationDatabase_CanNotLoadDatabase
    );
    let records = vec![
        CommandData {
            directory: "/old".to_string(),
            command: "cc old".to_string(),
            file: "/src/A.m".to_string(),
        },
        CommandData {
            directory: "/new".to_string(),
            command: "cc new".to_string(),
            file: "/src/A.m".to_string(),
        },
    ];
    let db = CompilationDatabase::from_directory(Some(records)).unwrap();
    assert_eq!(db.len(), 1);
    assert_eq!(db.record_for("/src/A.m").unwrap().directory, "/new");
    let db = CompilationDatabase::from_directory(Some(vec![])).unwrap();
    assert_eq!(db.len(), 0);
}

#[test]
fn database_that_is_not_loaded_is_a_failure_of_the_engine() {
    match database_of(CompilationDatabase::from_directory(None)) {
        Err(QueryError::EngineFailure(detail)) => {
            assert_eq!(detail, "Unable to create compilation database")
        }
        _ => panic!("a database came of nothing"),
    }
    let db = database_of(CompilationDatabase::from_directory(Some(vec![CommandData {
        directory: "/proj".to_string(),
        command: "cc".to_string(),
        file: "/src/A.m".to_string(),
    }])))
    .unwrap();
    assert_eq!(db.record_for("/src/A.m").unwrap().command, "cc");
}

#[test]
fn file_event_flags_are_bits() {
    assert_eq!(kFSEventStreamEventFlagNone.to_uint(), 0);
    assert_eq!(kFSEventStreamEventFlagMustScanSubDirs.to_uint(), 0x1);
    assert_eq!(kFSEventStreamEventFlagUnmount.to_uint(), 0x80);
    assert_eq!(kFSEventStreamEventFlagItemCreated.to_uint(), 0x100);
    assert_eq!(kFSEventStreamEventFlagItemModified.to_uint(), 0x1000);
    assert_eq!(kFSEventStreamEventFlagItemIsFile.to_uint(), 0x10000);
    assert_eq!(kFSEventStreamEventFlagItemIsSymlink.to_uint(), 0x40000);
    assert_eq!(FSEventStreamEventFlags::from_uint(0), Some(kFSEventStreamEventFlagNone));
    for bit in 0..19 {
        let v = 1u32 << bit;
        assert_eq!(FSEventStreamEventFlags::from_uint(v).map(|f| f.to_uint()), Some(v));
    }
    assert_eq!(FSEventStreamEventFlags::from_uint(0x80000), None);
    assert_eq!(FSEventStreamEventFlags::from_uint(0x101), None);
    assert_eq!(FSEventStreamEventFlags::from_uint(u32::MAX), None);
    assert!(kFSEventStreamEventFlagItemCreated.is_set_in(0x10100));
    assert!(!kFSEventStreamEventFlagItemCreated.is_set_in(0x10200));
    assert!(!kFSEventStreamEventFlagNone.is_set_in(u32::MAX));
}

#[test]
fn new_file_calls_for_a_new_build() {
    assert!(XCodeBuildWatcher::rebuilds_on(0x100));
    assert!(XCodeBuildWatcher::rebuilds_on(0x10100));
    assert!(XCodeBuildWatcher::rebuilds_on(u32::MAX));
    assert!(!XCodeBuildWatcher::rebuilds_on(0));
    assert!(!XCodeBuildWatcher::rebuilds_on(0x11000));
    assert!(!XCodeBuildWatcher::rebuilds_on(0x200));
}

fn watcher() -> XCodeBuildWatcher {
    XCodeBuildWatcher::new(
        "/Users/me/proj".to_string(),
        "TestApplication".to_string(),
        "Debug Scheme".to_string(),
        "iphonesimulator7.1".to_string(),
    )
}

#[test]
fn build_tool_is_given_workspace_scheme_and_kit() {
    let w = watcher();
    assert_eq!(w.folder, "/Users/me/proj");
    assert_eq!(
        w.arguments(),
        vec![
            "-workspace",
            "TestApplication.xcworkspace",
            "-scheme",
            "Debug Scheme",
            "-sdk",
            "iphonesimulator7.1",
            "clean",
            "build"
        ]
    );
    assert_eq!(DATABASE_FILE, "compile_commands.json");
}

#[test]
fn failed_build_gives_its_complaint() {
    let w = watcher();
    assert_eq!(
        w.build(false, Some("partial".to_string()), "xcodebuild: error: no scheme".to_string()),
        Err("xcodebuild: error: no scheme".to_string())
    );
    assert_eq!(w.build(false, None, "".to_string()), Err("".to_string()));
}

#[test]
fn successful_build_gives_what_it_printed() {
    let w = watcher();
    assert_eq!(
        w.build(true, Some("CompileC a.o a.m\n".to_string()), "warning".to_string()),
        Ok("CompileC a.o a.m\n".to_string())
    );
    assert_eq!(w.build(true, None, "warning".to_string()), Ok("".to_string()));
}

#[test]
fn transcript_of_a_build_gives_the_records() {
    let w = watcher();
    let transcript = "ProcessPCH P.pch.pch P.pch\n    cd /proj\n    export LANG=C\n    export PATH=/bin\n    clang -c /h/P.pch -o /c/P.pch.pch\nCompileC a.o /src/A.m\n    cd /proj\n    export LANG=C\n    export PATH=/bin\n    clang -include /c/P.pch -c /src/A.m -o a.o\n";
    let records = w.run(transcript).unwrap();
    assert_eq!(
        records,
        vec![CommandData {
            directory: "/proj".to_string(),
            command: "clang -include /h/P.pch -c /src/A.m -o a.o".to_string(),
            file: "/src/A.m".to_string(),
        }]
    );
    assert!(matches!(
        w.run("CompileC a.o /src/A.m\n"),
        Err(QueryError::ParseLogMalformed(ParseError::Truncated { line: 1 }))
    ));
}
