//! Building a workspace to learn how its files are compiled.

use crate::cdb::strings_view;
use crate::helpers::QueryError;
use crate::rfsevents::FSEventStreamEventFlags;
use crate::text::{append_chars, chars_of, string_of};
use crate::xcodebuild_parser::{
    parse, records_view, CommandData, CompileRecord, ParseError, XCodeBuildParser,
};
use vstd::prelude::*;

verus! {

/// The name of the file in which a compilation database is kept.
pub const DATABASE_FILE: &'static str = "compile_commands.json";

/// A build of one workspace: the folder the workspace lies in, its name, and
/// the scheme and the kit to build it with.
#[derive(Debug)]
pub struct XCodeBuildWatcher {
    pub folder: String,
    pub workspace: String,
    pub scheme: String,
    pub sdk: String,
}

/// The arguments with which the build tool is run: the workspace by the name
/// of its file, the scheme and the kit, and the order to clean and build.
pub open spec fn build_arguments(workspace: Seq<char>, scheme: Seq<char>, sdk: Seq<char>) -> Seq<
    Seq<char>,
> {
    seq![
        "-workspace"@,
        workspace + ".xcworkspace"@,
        "-scheme"@,
        scheme,
        "-sdk"@,
        sdk,
        "clean"@,
        "build"@,
    ]
}

/// What a run of the build tool comes to: a run that succeeded gives what it
/// printed, that is nothing where what it printed is no text; a run that
/// failed gives its complaint as the error.
pub open spec fn transcript_of(
    success: bool,
    output: Option<Seq<char>>,
    complaint: Seq<char>,
) -> Result<Seq<char>, Seq<char>> {
    if !success {
        Err(complaint)
    } else {
        match output {
            Some(text) => Ok(text),
            None => Ok(Seq::empty()),
        }
    }
}

impl XCodeBuildWatcher {
    pub fn new(folder: String, workspace: String, scheme: String, sdk: String) -> (watcher:
        XCodeBuildWatcher)
        ensures
            watcher == (XCodeBuildWatcher { folder, workspace, scheme, sdk }),
    {
        XCodeBuildWatcher { folder, workspace, scheme, sdk }
    }

    /// The arguments with which the build tool is run.
    pub fn arguments(&self) -> (args: Vec<String>)
        ensures
            strings_view(args@) == build_arguments(
                self.workspace@,
                self.scheme@,
                self.sdk@,
            ),
    {
        let mut file = chars_of(self.workspace.as_str());
        let ending = chars_of(".xcworkspace");
        append_chars(&mut file, ending.as_slice());
        let mut args: Vec<String> = Vec::new();
        args.push(String::from_str("-workspace"));
        args.push(string_of(file.as_slice()));
        args.push(String::from_str("-scheme"));
        args.push(self.scheme.clone());
        args.push(String::from_str("-sdk"));
        args.push(self.sdk.clone());
        args.push(String::from_str("clean"));
        args.push(String::from_str("build"));
        assert(strings_view(args@) =~= build_arguments(
            self.workspace@,
            self.scheme@,
            self.sdk@,
        ));
        args
    }

    /// What a run of the build tool comes to. `success` tells whether the
    /// run succeeded; `output` is what it printed, if that is text; `complaint`
    /// is what it printed as errors.
    pub fn build(&self, success: bool, output: Option<String>, complaint: String) -> (r: Result<
        String,
        String,
    >)
        ensures
            match r {
                Ok(text) => transcript_of(
                    success,
                    match output {
                        Some(o) => Some(o@),
                        None => None,
                    },
                    complaint@,
                ) == Ok::<Seq<char>, Seq<char>>(text@),
                Err(e) => transcript_of(
                    success,
                    match output {
                        Some(o) => Some(o@),
                        None => None,
                    },
                    complaint@,
                ) == Err::<Seq<char>, Seq<char>>(e@),
            },
    {
        if !success {
            return Err(complaint);
        }
        match output {
            Some(text) => Ok(text),
            None => Ok(String::new()),
        }
    }

    /// The compile records that the transcript of a build gives, read with a
    /// parser that knows no header beforehand.
    pub fn run(&self, transcript: &str) -> (r: Result<Vec<CommandData>, QueryError>)
        ensures
            match r {
                Ok(records) => parse(Map::empty(), transcript@).outcome == Ok::<
                    Seq<CompileRecord>,
                    ParseError,
                >(records_view(records@)),
                Err(e) => e matches QueryError::ParseLogMalformed(cause) && parse(
                    Map::empty(),
                    transcript@,
                ).outcome == Err::<Seq<CompileRecord>, ParseError>(cause),
            },
    {
        let mut parser = XCodeBuildParser::new();
        match parser.parse_output(transcript) {
            Ok(records) => Ok(records),
            Err(cause) => Err(QueryError::ParseLogMalformed(cause)),
        }
    }

    /// Tells whether a change in the folder calls for a new build: it does
    /// where an item was created.
    pub fn rebuilds_on(flags: u32) -> (rebuild: bool)
        ensures
            rebuild == (flags
                & FSEventStreamEventFlags::kFSEventStreamEventFlagItemCreated.bits() != 0),
    {
        FSEventStreamEventFlags::kFSEventStreamEventFlagItemCreated.is_set_in(flags)
    }
}

} // verus!
