//! The answers for an editor: findings and completions as text, the place of
//! a query read from text, and where to look for the compilation database.

use crate::cdb::{engine_command, strings_view, CompilationCommand, CompilationDatabase};
use crate::code_completion::{yas_text, Completion, CompletionResult};
use crate::diagnostic::{engine_failure, findings_view, Diagnostic, Finding};
use crate::text::{
    append_chars, chars_of, contains, contains_chars, decimal, decimal_value, first_where,
    is_number, last_where, lemma_first_where, lemma_first_where_is, lemma_last_where,
    lemma_last_where_is, parse_decimal, slice_of, string_of,
};
use crate::types::{CXAvailabilityKind, CXCompilationDatabase_Error};
use crate::xcodebuild_parser::ParseError;
use vstd::prelude::*;

verus! {

/// Why a query has no answer.
#[derive(Debug)]
pub enum QueryError {
    /// The transcript of the build could not be read.
    ParseLogMalformed(ParseError),
    /// No directory above the file holds a compilation database.
    DatabaseNotFound,
    /// The compilation database has no record of the file.
    FileNotInDatabase,
    /// The analysis engine failed; what it said is kept.
    EngineFailure(String),
    /// The place of the query is not written as a line, a colon and a
    /// column.
    LocationFormat,
}

impl QueryError {
    /// The error in words.
    pub open spec fn text(self) -> Seq<char> {
        match self {
            QueryError::ParseLogMalformed(e) => e.complaint() + decimal(e.line()),
            QueryError::DatabaseNotFound => "Unable to find directory with compile_commands.json"@,
            QueryError::FileNotInDatabase => "Unable to find compilation command in the database"@,
            QueryError::EngineFailure(detail) => detail@,
            QueryError::LocationFormat => "Location should be in format line:column"@,
        }
    }

    /// The error in words.
    pub fn message(&self) -> (s: String)
        ensures
            s@ == self.text(),
    {
        match self {
            QueryError::ParseLogMalformed(e) => e.message(),
            QueryError::DatabaseNotFound => String::from_str(
                "Unable to find directory with compile_commands.json",
            ),
            QueryError::FileNotInDatabase => String::from_str(
                "Unable to find compilation command in the database",
            ),
            QueryError::EngineFailure(detail) => detail.clone(),
            QueryError::LocationFormat => String::from_str(
                "Location should be in format line:column",
            ),
        }
    }
}

/// The findings to report for `file`: those of the engine, as they are; or,
/// where the engine failed, the one finding that stands for the failure.
pub fn diagnostics_of(file: &str, outcome: Result<Vec<Diagnostic>, String>) -> (diagnostics: Vec<
    Diagnostic,
>)
    ensures
        match outcome {
            Ok(found) => diagnostics == found,
            Err(detail) => findings_view(diagnostics@) == seq![engine_failure(file@, detail@)],
        },
{
    match outcome {
        Ok(found) => found,
        Err(detail) => {
            let failure = Diagnostic::engine_failure(file, detail.as_str());
            let mut diagnostics: Vec<Diagnostic> = Vec::new();
            diagnostics.push(failure);
            assert(findings_view(diagnostics@) =~= seq![engine_failure(file@, detail@)]);
            diagnostics
        },
    }
}

/// The findings as text: each as the engine prints it, with a line feed
/// behind each, in the order of the findings.
pub open spec fn diagnostics_text(findings: Seq<Finding>) -> Seq<char>
    decreases findings.len(),
{
    if findings.len() == 0 {
        Seq::empty()
    } else {
        diagnostics_text(findings.drop_last()) + findings.last().formatted + seq!['\n']
    }
}

/// The findings of a syntax check as text for an editor.
pub fn syntax_check(diagnostics: &Vec<Diagnostic>) -> (output: String)
    ensures
        output@ == diagnostics_text(findings_view(diagnostics@)),
{
    let mut out: Vec<char> = Vec::new();
    let ghost all = findings_view(diagnostics@);
    let mut i: usize = 0;
    while i < diagnostics.len()
        invariant
            i <= diagnostics.len(),
            all == findings_view(diagnostics@),
            out@ == diagnostics_text(all.take(i as int)),
        decreases diagnostics.len() - i,
    {
        let formatted = chars_of(diagnostics[i].formatted.as_str());
        proof {
            assert(all.take(i + 1).drop_last() =~= all.take(i as int));
            assert(all.take(i + 1).last() == diagnostics@[i as int]@);
        }
        append_chars(&mut out, formatted.as_slice());
        out.push('\n');
        i += 1;
    }
    assert(all.take(diagnostics.len() as int) =~= all);
    string_of(out.as_slice())
}

/// A completion is offered to the editor where it is available and its text
/// for the editor holds `prefix` somewhere, in the same case.
pub open spec fn is_offered(completion: Completion, prefix: Seq<char>) -> bool {
    completion.availability == CXAvailabilityKind::CXAvailability_Available && contains(
        yas_text(completion.chunks),
        prefix,
    )
}

/// The completions as text: the text for the editor of each one that is
/// offered, with a line feed behind each, in the order of the completions.
pub open spec fn completions_text(completions: Seq<Completion>, prefix: Seq<char>) -> Seq<char>
    decreases completions.len(),
{
    if completions.len() == 0 {
        Seq::empty()
    } else if is_offered(completions.last(), prefix) {
        completions_text(completions.drop_last(), prefix) + yas_text(completions.last().chunks)
            + seq!['\n']
    } else {
        completions_text(completions.drop_last(), prefix)
    }
}

/// The completions of a vector, as mathematical values.
pub open spec fn completions_view(v: Seq<CompletionResult>) -> Seq<Completion> {
    v.map_values(|c: CompletionResult| c@)
}

/// The completions at a place as text for an editor. The order is that of the
/// engine, which has ordered them by weight.
pub fn code_completion(completions: &Vec<CompletionResult>, prefix: &str) -> (output: String)
    ensures
        output@ == completions_text(completions_view(completions@), prefix@),
{
    let wanted = chars_of(prefix);
    let mut out: Vec<char> = Vec::new();
    let ghost all = completions_view(completions@);
    let mut i: usize = 0;
    while i < completions.len()
        invariant
            i <= completions.len(),
            wanted@ == prefix@,
            all == completions_view(completions@),
            out@ == completions_text(all.take(i as int), prefix@),
        decreases completions.len() - i,
    {
        let completion = &completions[i];
        proof {
            assert(all.take(i + 1).drop_last() =~= all.take(i as int));
            assert(all.take(i + 1).last() == completion@);
        }
        if completion.availability == CXAvailabilityKind::CXAvailability_Available {
            let result = completion.to_yas();
            let result = chars_of(result.as_str());
            if contains_chars(result.as_slice(), wanted.as_slice()) {
                append_chars(&mut out, result.as_slice());
                out.push('\n');
            }
        }
        i += 1;
    }
    assert(all.take(completions.len() as int) =~= all);
    string_of(out.as_slice())
}

/// The column at which the engine is asked for completions: that of the
/// first byte of what is typed so far, where the query gives the column
/// behind it. The length of `prefix` is counted in bytes, as columns are. A
/// column that leaves no room for what is typed is refused.
pub fn completion_column(column: usize, prefix: &str) -> (r: Result<usize, QueryError>)
    ensures
        match r {
            Ok(start) => start == column - prefix.len() + 1,
            Err(e) => e is LocationFormat && !(0 < column - prefix.len() + 1 <= usize::MAX),
        },
{
    let typed = prefix.len();
    if typed > column {
        return Err(QueryError::LocationFormat);
    }
    match (column - typed).checked_add(1) {
        Some(start) => Ok(start),
        None => Err(QueryError::LocationFormat),
    }
}

/// The test "a colon stands in `s` at this position".
pub open spec fn colon_in(s: Seq<char>) -> spec_fn(int) -> bool {
    |i: int| 0 <= i < s.len() && s[i] == ':'
}

/// The line and the column that `location` names: it holds two numbers in
/// decimal with a colon between them, and nothing else.
pub open spec fn location_of(location: Seq<char>) -> Option<(nat, nat)> {
    match last_where(0, location.len() as int, colon_in(location)) {
        Some(i) => {
            let line = location.take(i);
            let column = location.skip(i + 1);
            if is_number(line) && is_number(column) {
                Some((decimal_value(line), decimal_value(column)))
            } else {
                None
            }
        },
        None => None,
    }
}

/// Reads the place of a query. Text that names no line and column is
/// refused, and so is a number too large for the machine.
pub fn parse_location(location: &str) -> (r: Result<(usize, usize), QueryError>)
    ensures
        match r {
            Ok((line, column)) => location_of(location@) == Some((line as nat, column as nat)),
            Err(e) => e is LocationFormat && match location_of(location@) {
                Some((line, column)) => line > usize::MAX || column > usize::MAX,
                None => true,
            },
        },
{
    let text = chars_of(location);
    let mut i: usize = text.len();
    while i > 0 && text[i - 1] != ':'
        invariant
            i <= text.len(),
            forall|j: int| i <= j < text.len() ==> !#[trigger] colon_in(text@)(j),
        decreases i,
    {
        i -= 1;
    }
    if i == 0 {
        proof {
            lemma_last_where(0, text.len() as int, colon_in(text@));
        }
        return Err(QueryError::LocationFormat);
    }
    proof {
        lemma_last_where_is(0, text.len() as int, colon_in(text@), i - 1);
    }
    let line = slice_of(text.as_slice(), 0, i - 1);
    let column = slice_of(text.as_slice(), i, text.len());
    match (parse_decimal(line.as_slice()), parse_decimal(column.as_slice())) {
        (Some(line), Some(column)) => Ok((line, column)),
        _ => Err(QueryError::LocationFormat),
    }
}

/// The place at which the engine is asked for completions: the line that
/// `location` names, and the column at which what is typed begins.
pub fn completion_location(location: &str, prefix: &str) -> (r: Result<(usize, usize), QueryError>)
    ensures
        match r {
            Ok((line, column)) => location_of(location@) matches Some((l, c)) && line == l
                && column == c - prefix.len() + 1,
            Err(e) => e is LocationFormat && match location_of(location@) {
                Some((l, c)) => l > usize::MAX || c > usize::MAX || !(0 < c - prefix.len() + 1
                    <= usize::MAX),
                None => true,
            },
        },
{
    let (line, column) = match parse_location(location) {
        Ok(place) => place,
        Err(e) => {
            return Err(e);
        },
    };
    match completion_column(column, prefix) {
        Ok(start) => Ok((line, start)),
        Err(e) => Err(e),
    }
}

/// The database with which a query is answered. A database that could not
/// be loaded is a failure of the engine.
pub fn database_of(loaded: Result<CompilationDatabase, CXCompilationDatabase_Error>) -> (r: Result<
    CompilationDatabase,
    QueryError,
>)
    ensures
        match r {
            Ok(db) => loaded == Ok::<CompilationDatabase, CXCompilationDatabase_Error>(db),
            Err(e) => loaded is Err && e.text() == "Unable to create compilation database"@
                && e is EngineFailure,
        },
{
    match loaded {
        Ok(db) => Ok(db),
        Err(_) => Err(
            QueryError::EngineFailure(String::from_str("Unable to create compilation database")),
        ),
    }
}

/// The test "a slash stands in `s` at this position".
pub open spec fn slash_in(s: Seq<char>) -> spec_fn(int) -> bool {
    |i: int| 0 <= i < s.len() && s[i] == '/'
}

/// The directory that holds `path`: what stands before the last slash of
/// `path`, or the root where that slash begins `path`. The root has none,
/// nor has a path without a slash.
pub open spec fn parent(path: Seq<char>) -> Option<Seq<char>> {
    match last_where(0, path.len() as int, slash_in(path)) {
        Some(i) => if i > 0 {
            Some(path.take(i))
        } else if path.len() > 1 {
            Some(path.take(1))
        } else {
            None
        },
        None => None,
    }
}

/// The directories above `path`, the nearest first, the root last.
pub open spec fn ancestors(path: Seq<char>) -> Seq<Seq<char>>
    decreases path.len(),
{
    match parent(path) {
        Some(directory) => {
            proof {
                lemma_last_where(0, path.len() as int, slash_in(path));
            }
            seq![directory] + ancestors(directory)
        },
        None => Seq::empty(),
    }
}

/// The directory that holds `path`.
fn parent_of(path: &[char]) -> (r: Option<Vec<char>>)
    ensures
        match r {
            Some(directory) => parent(path@) == Some(directory@),
            None => parent(path@) is None,
        },
{
    let mut i: usize = path.len();
    while i > 0 && path[i - 1] != '/'
        invariant
            i <= path.len(),
            forall|j: int| i <= j < path.len() ==> !#[trigger] slash_in(path@)(j),
        decreases i,
    {
        i -= 1;
    }
    if i == 0 {
        proof {
            lemma_last_where(0, path.len() as int, slash_in(path@));
        }
        return None;
    }
    proof {
        lemma_last_where_is(0, path.len() as int, slash_in(path@), i - 1);
    }
    if i > 1 {
        Some(slice_of(path, 0, i - 1))
    } else if path.len() > 1 {
        Some(slice_of(path, 0, 1))
    } else {
        None
    }
}

/// The directories in which to look for the compilation database of
/// `file_path`, in the order in which to look: the directories above the
/// file, the nearest first.
pub fn database_directories(file_path: &str) -> (directories: Vec<String>)
    ensures
        strings_view(directories@) == ancestors(file_path@),
{
    let mut directories: Vec<String> = Vec::new();
    let mut path = chars_of(file_path);
    assert(strings_view(directories@) + ancestors(path@) =~= ancestors(file_path@));
    loop
        invariant
            strings_view(directories@) + ancestors(path@) == ancestors(file_path@),
        ensures
            strings_view(directories@) == ancestors(file_path@),
        decreases path@.len(),
    {
        match parent_of(path.as_slice()) {
            Some(directory) => {
                let name = string_of(directory.as_slice());
                proof {
                    lemma_last_where(0, path@.len() as int, slash_in(path@));
                    assert(strings_view(directories@.push(name))
                        =~= strings_view(directories@) + seq![directory@]);
                    assert(strings_view(directories@) + seq![directory@] + ancestors(
                        directory@,
                    ) =~= strings_view(directories@) + (seq![directory@] + ancestors(
                        directory@,
                    )));
                }
                directories.push(name);
                path = directory;
            },
            None => {
                assert(strings_view(directories@) + Seq::<Seq<char>>::empty()
                    =~= strings_view(directories@));
                break ;
            },
        }
    }
    directories
}

/// The test "the directory at this position holds a database".
pub open spec fn holds_database(candidates: Seq<(String, bool)>) -> spec_fn(int) -> bool {
    |i: int| 0 <= i < candidates.len() && candidates[i].1
}

/// The directory whose compilation database is used: the first of the
/// candidates that holds one. Each candidate is a directory and whether it
/// holds a database. Where none does, there is no database to be found.
pub fn database_directory(candidates: Vec<(String, bool)>) -> (r: Result<String, QueryError>)
    ensures
        match r {
            Ok(directory) => first_where(0, candidates@.len() as int, holds_database(candidates@))
                matches Some(i) && directory == candidates@[i].0,
            Err(e) => e is DatabaseNotFound && first_where(
                0,
                candidates@.len() as int,
                holds_database(candidates@),
            ) is None,
        },
{
    let mut rest = candidates;
    let ghost all = rest@;
    let mut i: usize = 0;
    while i < rest.len()
        invariant
            rest@ == all,
            all == candidates@,
            forall|j: int| 0 <= j < i ==> !#[trigger] holds_database(all)(j),
        decreases rest.len() - i,
    {
        if rest[i].1 {
            proof {
                lemma_first_where_is(0, all.len() as int, holds_database(all), i as int);
            }
            let (directory, _) = rest.swap_remove(i);
            return Ok(directory);
        }
        i += 1;
    }
    proof {
        lemma_first_where(0, all.len() as int, holds_database(all));
    }
    Err(QueryError::DatabaseNotFound)
}

/// The command with which the engine reads the file of a query: the one
/// that the record of `original_file` gives. A file of which the database
/// has no record is refused.
pub fn command_for(c_db: &CompilationDatabase, original_file: &str) -> (r: Result<
    CompilationCommand,
    QueryError,
>)
    ensures
        match r {
            Ok(command) => c_db@.contains_key(original_file@) && command@ == engine_command(
                c_db@[original_file@],
            ),
            Err(e) => e is FileNotInDatabase && !c_db@.contains_key(original_file@),
        },
{
    match c_db.compilation_command_for(original_file) {
        Some(command) => Ok(command),
        None => Err(QueryError::FileNotInDatabase),
    }
}

/// Taking away a completion that is not offered changes nothing in the text
/// of the completions: one that is not available is left out, and so is one
/// whose text for the editor does not hold the prefix, available or not.
pub proof fn lemma_unoffered_completion_is_left_out(
    completions: Seq<Completion>,
    prefix: Seq<char>,
    i: int,
)
    requires
        0 <= i < completions.len(),
        !is_offered(completions[i], prefix),
    ensures
        completions_text(completions.remove(i), prefix) == completions_text(completions, prefix),
    decreases completions.len(),
{
    let front = completions.drop_last();
    if i == completions.len() - 1 {
        assert(completions.remove(i) =~= front);
    } else {
        lemma_unoffered_completion_is_left_out(front, prefix, i);
        assert(completions.remove(i).drop_last() =~= front.remove(i));
        assert(completions.remove(i).last() == completions.last());
    }
}

/// A completion whose text for the editor does not hold the prefix is not
/// offered, though it be available.
pub proof fn lemma_prefix_is_required(completion: Completion, prefix: Seq<char>)
    requires
        !contains(yas_text(completion.chunks), prefix),
    ensures
        !is_offered(completion, prefix),
{
}

} // verus!
