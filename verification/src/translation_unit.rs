//! Finding where a name is defined.
//!
//! The analysis engine resolves the cursor at a place; what is done with the
//! answer is decided here. A message send leads to a declaration in a header,
//! while the method itself stands in the file that goes with the header, so
//! the search then goes on in that file, once.

use crate::cdb::{engine_command, CompilationCommand, CompilationDatabase, EngineCommand};
use crate::source_location::{Place, SourceLocation};
use crate::text::{append_chars, chars_of, ends_with, matches_at, slice_of, string_of};
use crate::types::CXTranslationUnit_Flags;
use crate::xcodebuild_parser::CompileRecord;
use vstd::prelude::*;

verus! {

/// The kind that the engine gives the cursor on a message send.
pub const MESSAGE_SEND: u32 = 104;

/// What the engine tells of the cursor at a place.
#[derive(Debug)]
pub struct Cursor {
    /// The kind of the cursor, as the engine counts kinds.
    pub kind: u32,
    /// Where what the cursor refers to is declared.
    pub referenced: SourceLocation,
    /// Where what the cursor stands for is defined.
    pub definition: SourceLocation,
}

/// What the engine tells of a cursor, as a mathematical value.
pub struct CursorView {
    pub kind: u32,
    pub referenced: Place,
    pub definition: Place,
}

impl View for Cursor {
    type V = CursorView;

    open spec fn view(&self) -> CursorView {
        CursorView { kind: self.kind, referenced: self.referenced@, definition: self.definition@ }
    }
}

/// How far a search has come.
#[derive(Debug, Clone, Copy, PartialEq, Eq, Structural)]
pub enum Hop {
    /// The cursor is the one at the place that was asked about.
    First,
    /// The cursor is the one in the file that the search was sent on to.
    Second,
}

/// Where a search is sent on to: a file to read, the command to read it
/// with, and the place in it at which to resolve the cursor.
#[derive(Debug)]
pub struct Redirect {
    pub command: CompilationCommand,
    pub file: String,
    pub line: usize,
    pub column: usize,
}

/// Where a search is sent on to, as a mathematical value.
pub struct RedirectView {
    pub command: EngineCommand,
    pub file: Seq<char>,
    pub line: nat,
    pub column: nat,
}

impl View for Redirect {
    type V = RedirectView;

    open spec fn view(&self) -> RedirectView {
        RedirectView {
            command: self.command@,
            file: self.file@,
            line: self.line as nat,
            column: self.column as nat,
        }
    }
}

/// What a step of a search leads to.
#[derive(Debug)]
pub enum Definition {
    /// The search is over, and this is its answer.
    Found(SourceLocation),
    /// The search goes on elsewhere.
    Redirect(Redirect),
}

/// What a step of a search leads to, as a mathematical value.
pub enum DefinitionView {
    Found(Place),
    Redirect(RedirectView),
}

impl View for Definition {
    type V = DefinitionView;

    open spec fn view(&self) -> DefinitionView {
        match self {
            Definition::Found(location) => DefinitionView::Found(location@),
            Definition::Redirect(redirect) => DefinitionView::Redirect(redirect@),
        }
    }
}

/// How the name of a header ends.
pub open spec fn header_extension() -> Seq<char> {
    ".h"@
}

/// How the name of the file that goes with a header ends.
pub open spec fn implementation_extension() -> Seq<char> {
    ".m"@
}

/// The file in which what `file` declares is defined: for a header, the file
/// of the same name with the other ending; for any other file, the file
/// itself.
pub open spec fn implementation_file(file: Seq<char>) -> Seq<char> {
    if ends_with(file, header_extension()) {
        file.take(file.len() - header_extension().len()) + implementation_extension()
    } else {
        file
    }
}

/// The step from a cursor on a message send. On the first hop the search is
/// sent on to the file that goes with the header of the declaration, to the
/// line and column of the declaration, if the database has a record of that
/// file. Else the declaration is the answer: where the database has no such
/// record, and on the second hop, since a search is sent on once at most.
pub open spec fn referenced_step(
    db: Map<Seq<char>, CompileRecord>,
    hop: Hop,
    cursor: CursorView,
) -> DefinitionView {
    let file = implementation_file(cursor.referenced.file);
    if hop == Hop::First && db.contains_key(file) {
        DefinitionView::Redirect(
            RedirectView {
                command: engine_command(db[file]),
                file,
                line: cursor.referenced.line,
                column: cursor.referenced.column,
            },
        )
    } else {
        DefinitionView::Found(cursor.referenced)
    }
}

/// The step from a cursor: a cursor on a message send is followed to its
/// declaration; for any other the definition is the answer.
pub open spec fn definition_step(
    db: Map<Seq<char>, CompileRecord>,
    hop: Hop,
    cursor: CursorView,
) -> DefinitionView {
    if cursor.kind == MESSAGE_SEND {
        referenced_step(db, hop, cursor)
    } else {
        DefinitionView::Found(cursor.definition)
    }
}

/// The file in which what `file` declares is defined.
pub fn implementation_file_of(file: &str) -> (paired: String)
    ensures
        paired@ == implementation_file(file@),
{
    let name = chars_of(file);
    let header = chars_of(".h");
    let implementation = chars_of(".m");
    if name.len() >= header.len() && matches_at(
        name.as_slice(),
        header.as_slice(),
        name.len() - header.len(),
    ) {
        let mut paired = slice_of(name.as_slice(), 0, name.len() - header.len());
        append_chars(&mut paired, implementation.as_slice());
        assert(paired@ =~= implementation_file(file@));
        string_of(paired.as_slice())
    } else {
        string_of(name.as_slice())
    }
}

/// Follows a cursor on a message send to its declaration.
pub fn referenced_location(c_db: &CompilationDatabase, hop: Hop, cursor: Cursor) -> (next:
    Definition)
    ensures
        next@ == referenced_step(c_db@, hop, cursor@),
{
    match hop {
        Hop::First => {
            let m_file = implementation_file_of(cursor.referenced.file.as_str());
            match c_db.compilation_command_for(m_file.as_str()) {
                Some(command) => Definition::Redirect(
                    Redirect {
                        command,
                        file: m_file,
                        line: cursor.referenced.line,
                        column: cursor.referenced.column,
                    },
                ),
                None => Definition::Found(cursor.referenced),
            }
        },
        Hop::Second => Definition::Found(cursor.referenced),
    }
}

/// Takes a step of a search: from what the engine tells of the cursor at
/// the place where the search stands, to the answer or to the place where the
/// search goes on.
pub fn go_to_definition(c_db: &CompilationDatabase, hop: Hop, cursor: Cursor) -> (next: Definition)
    ensures
        next@ == definition_step(c_db@, hop, cursor@),
{
    if cursor.kind == MESSAGE_SEND {
        referenced_location(c_db, hop, cursor)
    } else {
        Definition::Found(cursor.definition)
    }
}

/// The answer of a search that was sent on, from what the engine tells of
/// the cursor in the file that it was sent on to: the declaration for a
/// message send, else the definition.
pub open spec fn final_answer(cursor: CursorView) -> Place {
    if cursor.kind == MESSAGE_SEND {
        cursor.referenced
    } else {
        cursor.definition
    }
}

/// Takes the last step of a search that was sent on.
pub fn definition_after_redirect(cursor: Cursor) -> (location: SourceLocation)
    ensures
        location@ == final_answer(cursor@),
{
    if cursor.kind == MESSAGE_SEND {
        cursor.referenced
    } else {
        cursor.definition
    }
}

/// The options with which a file is read for editing: those that the engine
/// proposes, and a precompiled preamble.
pub fn parse_options(default_options: u32) -> (options: u32)
    ensures
        options == default_options
            | CXTranslationUnit_Flags::CXTranslationUnit_PrecompiledPreamble.bits(),
{
    default_options | CXTranslationUnit_Flags::CXTranslationUnit_PrecompiledPreamble.to_bits()
}

/// For a cursor that is on no message send, the definition that the engine
/// gives is the answer, as it stands.
pub proof fn lemma_plain_cursor_is_answered(
    db: Map<Seq<char>, CompileRecord>,
    hop: Hop,
    cursor: CursorView,
)
    requires
        cursor.kind != MESSAGE_SEND,
    ensures
        definition_step(db, hop, cursor) == DefinitionView::Found(cursor.definition),
{
}

/// A message send whose declaration stands in a header sends the search on
/// to the file that goes with the header, to the line and column of the
/// declaration, where the database has a record of that file; where it has
/// none, the declaration is the answer.
pub proof fn lemma_message_send_redirects(
    db: Map<Seq<char>, CompileRecord>,
    cursor: CursorView,
    stem: Seq<char>,
)
    requires
        cursor.kind == MESSAGE_SEND,
        cursor.referenced.file == stem + header_extension(),
    ensures
        definition_step(db, Hop::First, cursor) == if db.contains_key(
            stem + implementation_extension(),
        ) {
            DefinitionView::Redirect(
                RedirectView {
                    command: engine_command(db[stem + implementation_extension()]),
                    file: stem + implementation_extension(),
                    line: cursor.referenced.line,
                    column: cursor.referenced.column,
                },
            )
        } else {
            DefinitionView::Found(cursor.referenced)
        },
{
    let file = cursor.referenced.file;
    assert(file.subrange(file.len() - header_extension().len(), file.len() as int)
        =~= header_extension());
    assert(file.take(file.len() - header_extension().len()) =~= stem);
}

/// A search is sent on once at most: the step from the second cursor is an
/// answer, whatever the database holds.
pub proof fn lemma_second_hop_answers(db: Map<Seq<char>, CompileRecord>, cursor: CursorView)
    ensures
        definition_step(db, Hop::Second, cursor) == DefinitionView::Found(final_answer(cursor)),
{
}

} // verus!
