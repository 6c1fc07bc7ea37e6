//! Compile records recovered from the transcript of a build.
//!
//! The transcript is scanned once, line by line. Two kinds of entry matter:
//! one that precompiles a header, from which the parser learns which header a
//! compiled one was made from, and one that compiles a file, from which it
//! takes a compile record. The flags are found by position in the text of an
//! invocation; the invocation is not split into shell words.

use crate::text::{
    append_chars, chars_of, contains, decimal, find, find_whitespace, first_occurrence,
    first_where, first_whitespace, last_occurrence, lemma_first_where, lemma_first_where_is,
    lemma_last_where, lines, lines_view, matches_at, occurrence, occurs_at, push_decimal,
    replace, replace_all, rfind, slice_of, split_lines, starts_with, string_of, trim, trimmed,
    whitespace_in,
};
use vstd::hash_map::StringHashMap;
use vstd::prelude::*;

verus! {

/// How one file was compiled: the directory the compiler ran in, its
/// invocation, and the file.
#[derive(Debug, PartialEq, Eq)]
pub struct CommandData {
    pub directory: String,
    pub command: String,
    pub file: String,
}

/// A compile record as a mathematical value.
pub struct CompileRecord {
    pub directory: Seq<char>,
    pub command: Seq<char>,
    pub file: Seq<char>,
}

impl View for CommandData {
    type V = CompileRecord;

    open spec fn view(&self) -> CompileRecord {
        CompileRecord { directory: self.directory@, command: self.command@, file: self.file@ }
    }
}

impl Clone for CommandData {
    fn clone(&self) -> (r: Self)
        ensures
            r@ == self@,
    {
        CommandData {
            directory: self.directory.clone(),
            command: self.command.clone(),
            file: self.file.clone(),
        }
    }
}

/// The records of a vector, as mathematical values.
pub open spec fn records_view(v: Seq<CommandData>) -> Seq<CompileRecord> {
    v.map_values(|r: CommandData| r@)
}

/// Why a transcript was refused. Each kind names the line at fault by its
/// number among the lines of the transcript, counted from 1.
#[derive(Debug, Clone, Copy, PartialEq, Eq, Structural)]
pub enum ParseError {
    /// The entry that begins at `line` is cut short: the transcript ends
    /// before the entry's invocation.
    Truncated { line: usize },
    /// The invocation at `line` precompiles a header, and names no pair of
    /// a header and a compiled header.
    NoHeaderPair { line: usize },
    /// The invocation at `line` compiles a file, and does not name the file.
    NoSourceFile { line: usize },
}

impl ParseError {
    /// The number of the line at fault.
    pub open spec fn line(self) -> nat {
        match self {
            ParseError::Truncated { line } => line as nat,
            ParseError::NoHeaderPair { line } => line as nat,
            ParseError::NoSourceFile { line } => line as nat,
        }
    }

    /// What is wrong with the line at fault.
    pub open spec fn complaint(self) -> Seq<char> {
        match self {
            ParseError::Truncated { .. } => "Unable to find command of entry at line "@,
            ParseError::NoHeaderPair { .. } => "Unable to find header paths in command at line "@,
            ParseError::NoSourceFile { .. } => "Unable to find file path in command at line "@,
        }
    }

    /// The error in words: what is wrong, and the number of the line.
    pub fn message(&self) -> (s: String)
        ensures
            s@ == self.complaint() + decimal(self.line()),
    {
        let (complaint, line) = match self {
            ParseError::Truncated { line } => ("Unable to find command of entry at line ", *line),
            ParseError::NoHeaderPair { line } => (
                "Unable to find header paths in command at line ",
                *line,
            ),
            ParseError::NoSourceFile { line } => (
                "Unable to find file path in command at line ",
                *line,
            ),
        };
        let mut out = chars_of(complaint);
        push_decimal(&mut out, line);
        string_of(out.as_slice())
    }
}

/// The two kinds of entry that the parser reads.
#[derive(Debug, Clone, Copy, PartialEq, Eq, Structural)]
pub enum EntryKind {
    /// A header is precompiled.
    ProcessPch,
    /// A file is compiled.
    CompileC,
}

/// The word that begins an entry which compiles a file.
pub open spec fn compile_marker() -> Seq<char> {
    "CompileC"@
}

/// The word that begins an entry which precompiles a header.
pub open spec fn header_marker() -> Seq<char> {
    "ProcessPCH"@
}

/// What stands before the directory in the second line of an entry.
pub open spec fn directory_marker() -> Seq<char> {
    "    cd "@
}

/// The flag before the file that an invocation compiles.
pub open spec fn file_flag() -> Seq<char> {
    "-c "@
}

/// The flag before the file that an invocation writes, with the space that
/// ends the argument before it.
pub open spec fn output_flag() -> Seq<char> {
    " -o "@
}

/// The flag before a file that an invocation includes ahead of the source.
pub open spec fn include_flag() -> Seq<char> {
    "-include "@
}

/// The letters that end the name of a header to precompile.
pub open spec fn header_ending() -> Seq<char> {
    "pch"@
}

/// What the build adds to the name of a header to name the compiled one.
pub open spec fn compiled_suffix() -> Seq<char> {
    ".pch"@
}

/// Where the line with the directory stands, counted from the line that
/// begins an entry.
pub const DIRECTORY_OFFSET: usize = 1;

/// Where the invocation stands, counted from the line that begins an entry.
/// The two lines between the directory and the invocation set the
/// environment and are passed over.
pub const INVOCATION_OFFSET: usize = 4;

/// The number of lines that an entry takes.
pub const ENTRY_LINES: usize = 5;

/// The kind of entry that `line` begins, if it begins one.
pub open spec fn entry_kind(line: Seq<char>) -> Option<EntryKind> {
    if starts_with(line, header_marker()) {
        Some(EntryKind::ProcessPch)
    } else if starts_with(line, compile_marker()) {
        Some(EntryKind::CompileC)
    } else {
        None
    }
}

/// The directory that the second line of an entry names: the line without
/// the marker that it begins with, or the whole line where it begins
/// otherwise.
pub open spec fn directory_of(line: Seq<char>) -> Seq<char> {
    if starts_with(line, directory_marker()) {
        line.skip(directory_marker().len() as int)
    } else {
        line
    }
}

/// The header and the compiled header that an invocation names, in this
/// order. The header stands between the first file flag and the last output
/// flag behind it, the compiled header behind that output flag.
pub open spec fn compiled_header(line: Seq<char>) -> Option<(Seq<char>, Seq<char>)> {
    match first_occurrence(line, file_flag(), 0) {
        Some(c) => match last_occurrence(line, output_flag(), c + file_flag().len()) {
            Some(o) => Some(
                (line.subrange(c + file_flag().len(), o), line.skip(o + output_flag().len())),
            ),
            None => None,
        },
        None => None,
    }
}

/// Whether `c` is a word character: a letter, a digit, a mark, a connecting
/// sign or a joiner of any script. The tables of Unicode in the crate
/// `regex-syntax` say which characters these are; this name stands for their
/// answer.
pub uninterp spec fn word_character(c: char) -> bool;

/// Tells whether `c` is a word character, by `regex_syntax::is_word_character`.
///
/// Not proved: that the answer is `word_character(c)`, that is, that it
/// depends on `c` alone. The function looks `c` up in a table that is
/// compiled in. It panics where the crate is built without that table; the
/// table belongs to the crate's default features, with which it is used here.
#[verifier::external_body]
fn is_word_character(c: char) -> (b: bool)
    ensures
        b == word_character(c),
{
    regex_syntax::is_word_character(c)
}

/// For each character of `line`, whether it is a word character.
pub open spec fn word_classes(line: Seq<char>) -> Seq<bool> {
    line.map_values(|c: char| word_character(c))
}

/// The test "the file flag stands in `line` at this position, and no word
/// character stands before it", where `word_at` tells of each position
/// whether a word character stands there. It keeps a word that ends in the
/// letters of the flag, such as the name of a language, from being taken for
/// the flag.
pub open spec fn file_flag_in(line: Seq<char>, word_at: Seq<bool>) -> spec_fn(int) -> bool {
    |i: int|
        occurs_at(line, file_flag(), i) && !(0 < i <= word_at.len() && word_at[i - 1])
}

/// The file that an invocation compiles, where `word_at` tells of each
/// position whether a word character stands there: what stands between the
/// first file flag that follows no word character and the first white space
/// behind it. Where no white space follows, the invocation names no file.
pub open spec fn source_file_among(line: Seq<char>, word_at: Seq<bool>) -> Option<Seq<char>> {
    match first_where(0, line.len() as int + 1, file_flag_in(line, word_at)) {
        Some(c) => match first_whitespace(line, c + file_flag().len()) {
            Some(w) => Some(line.subrange(c + file_flag().len(), w)),
            None => None,
        },
        None => None,
    }
}

/// The file that an invocation compiles.
pub open spec fn source_file(line: Seq<char>) -> Option<Seq<char>> {
    source_file_among(line, word_classes(line))
}

/// The header that an invocation includes ahead of the source: what stands
/// between the first include flag and the end of the last header ending
/// behind it.
pub open spec fn included_header(line: Seq<char>) -> Option<Seq<char>> {
    match first_occurrence(line, include_flag(), 0) {
        Some(p) => match last_occurrence(line, header_ending(), p + include_flag().len()) {
            Some(e) => Some(line.subrange(p + include_flag().len(), e + header_ending().len())),
            None => None,
        },
        None => None,
    }
}

/// The invocation with the header that it includes put back in place of the
/// compiled one. `headers` gives, for the name of a compiled header, the
/// header it was made from; the invocation names the compiled header without
/// its suffix. An invocation that includes nothing, or a header that
/// `headers` does not know, stays as it is.
pub open spec fn substituted(headers: Map<Seq<char>, Seq<char>>, line: Seq<char>) -> Seq<char> {
    match included_header(line) {
        Some(compiled) => if headers.contains_key(compiled + compiled_suffix()) {
            replace_all(line, compiled, headers[compiled + compiled_suffix()])
        } else {
            line
        },
        None => line,
    }
}

/// The command of the record that an invocation gives.
pub open spec fn command_of(headers: Map<Seq<char>, Seq<char>>, line: Seq<char>) -> Seq<char> {
    trim(substituted(headers, line))
}

/// The words and flags of the transcript, as characters.
struct Patterns {
    compile_marker: Vec<char>,
    header_marker: Vec<char>,
    directory_marker: Vec<char>,
    file_flag: Vec<char>,
    output_flag: Vec<char>,
    include_flag: Vec<char>,
    header_ending: Vec<char>,
    compiled_suffix: Vec<char>,
}

impl Patterns {
    /// Each field holds the characters of the word it is named after.
    spec fn wf(&self) -> bool {
        &&& self.compile_marker@ == compile_marker()
        &&& self.header_marker@ == header_marker()
        &&& self.directory_marker@ == directory_marker()
        &&& self.file_flag@ == file_flag()
        &&& self.output_flag@ == output_flag()
        &&& self.include_flag@ == include_flag()
        &&& self.header_ending@ == header_ending()
        &&& self.compiled_suffix@ == compiled_suffix()
    }

    fn new() -> (p: Self)
        ensures
            p.wf(),
    {
        Patterns {
            compile_marker: chars_of("CompileC"),
            header_marker: chars_of("ProcessPCH"),
            directory_marker: chars_of("    cd "),
            file_flag: chars_of("-c "),
            output_flag: chars_of(" -o "),
            include_flag: chars_of("-include "),
            header_ending: chars_of("pch"),
            compiled_suffix: chars_of(".pch"),
        }
    }

    /// Tells which kind of entry `line` begins.
    fn entry_kind(&self, line: &[char]) -> (k: Option<EntryKind>)
        requires
            self.wf(),
        ensures
            k == entry_kind(line@),
    {
        if matches_at(line, self.header_marker.as_slice(), 0) {
            Some(EntryKind::ProcessPch)
        } else if matches_at(line, self.compile_marker.as_slice(), 0) {
            Some(EntryKind::CompileC)
        } else {
            None
        }
    }

    /// Takes the directory from the second line of an entry.
    fn directory_of(&self, line: &[char]) -> (d: Vec<char>)
        requires
            self.wf(),
        ensures
            d@ == directory_of(line@),
    {
        if matches_at(line, self.directory_marker.as_slice(), 0) {
            slice_of(line, self.directory_marker.len(), line.len())
        } else {
            slice_of(line, 0, line.len())
        }
    }

    /// Takes the header and the compiled header from an invocation.
    fn compiled_header(&self, line: &[char]) -> (r: Option<(Vec<char>, Vec<char>)>)
        requires
            self.wf(),
        ensures
            match r {
                Some((header, compiled)) => compiled_header(line@) == Some((header@, compiled@)),
                None => compiled_header(line@) is None,
            },
    {
        let c = match find(line, self.file_flag.as_slice(), 0) {
            Some(c) => c,
            None => {
                return None;
            },
        };
        proof {
            lemma_first_where(0, line.len() + 1, occurrence(line@, file_flag()));
        }
        let from = c + self.file_flag.len();
        let o = match rfind(line, self.output_flag.as_slice(), from) {
            Some(o) => o,
            None => {
                return None;
            },
        };
        proof {
            lemma_last_where(from as int, line.len() + 1, occurrence(line@, output_flag()));
        }
        let header = slice_of(line, from, o);
        let compiled = slice_of(line, o + self.output_flag.len(), line.len());
        Some((header, compiled))
    }

    /// Takes the file that is compiled from an invocation.
    fn source_file(&self, line: &[char], word_at: &[bool]) -> (r: Option<Vec<char>>)
        requires
            self.wf(),
        ensures
            match r {
                Some(file) => source_file_among(line@, word_at@) == Some(file@),
                None => source_file_among(line@, word_at@) is None,
            },
    {
        let mut c: usize = 0;
        loop
            invariant
                self.wf(),
                c <= line.len(),
                forall|j: int| 0 <= j < c ==> !#[trigger] file_flag_in(line@, word_at@)(j),
            ensures
                file_flag_in(line@, word_at@)(c as int),
            decreases line.len() - c,
        {
            if matches_at(line, self.file_flag.as_slice(), c) && !(0 < c && c <= word_at.len()
                && word_at[c - 1]) {
                break ;
            }
            if c == line.len() {
                proof {
                    lemma_first_where(0, line.len() + 1, file_flag_in(line@, word_at@));
                }
                return None;
            }
            c += 1;
        }
        proof {
            lemma_first_where_is(0, line.len() + 1, file_flag_in(line@, word_at@), c as int);
        }
        let from = c + self.file_flag.len();
        match find_whitespace(line, from) {
            Some(w) => {
                proof {
                    lemma_first_where(from as int, line.len() as int, whitespace_in(line@));
                }
                Some(slice_of(line, from, w))
            },
            None => None,
        }
    }

    /// Takes the header that is included ahead of the source from an
    /// invocation.
    fn included_header(&self, line: &[char]) -> (r: Option<Vec<char>>)
        requires
            self.wf(),
        ensures
            match r {
                Some(header) => included_header(line@) == Some(header@),
                None => included_header(line@) is None,
            },
    {
        let p = match find(line, self.include_flag.as_slice(), 0) {
            Some(p) => p,
            None => {
                return None;
            },
        };
        proof {
            lemma_first_where(0, line.len() + 1, occurrence(line@, include_flag()));
        }
        let from = p + self.include_flag.len();
        let e = match rfind(line, self.header_ending.as_slice(), from) {
            Some(e) => e,
            None => {
                return None;
            },
        };
        proof {
            lemma_last_where(from as int, line.len() + 1, occurrence(line@, header_ending()));
        }
        Some(slice_of(line, from, e + self.header_ending.len()))
    }
}

/// Tells of each character of `line` whether it is a word character.
fn word_classes_of(line: &[char]) -> (word_at: Vec<bool>)
    ensures
        word_at@ == word_classes(line@),
{
    let mut word_at: Vec<bool> = Vec::new();
    let mut i: usize = 0;
    while i < line.len()
        invariant
            i <= line.len(),
            word_at@ == word_classes(line@.take(i as int)),
        decreases line.len() - i,
    {
        let class = is_word_character(line[i]);
        assert(word_classes(line@.take(i + 1)) =~= word_classes(line@.take(i as int)).push(class));
        word_at.push(class);
        i += 1;
    }
    assert(line@.take(line.len() as int) =~= line@);
    word_at
}

/// Takes the file that is compiled from the invocation `line`, where
/// `word_at` tells of each position whether a word character stands there. A
/// position of which `word_at` tells nothing holds none.
pub fn find_source_file(line: &str, word_at: &Vec<bool>) -> (r: Option<String>)
    ensures
        match r {
            Some(file) => source_file_among(line@, word_at@) == Some(file@),
            None => source_file_among(line@, word_at@) is None,
        },
{
    let patterns = Patterns::new();
    let text = chars_of(line);
    match patterns.source_file(text.as_slice(), word_at.as_slice()) {
        Some(file) => Some(string_of(file.as_slice())),
        None => None,
    }
}

/// What a scan has led to: the headers known at its end, and the records
/// gathered or the reason why the transcript was refused.
pub struct Scan {
    pub headers: Map<Seq<char>, Seq<char>>,
    pub outcome: Result<Seq<CompileRecord>, ParseError>,
}

/// The scan of `lines` from line `i` on, with `headers` known and `records`
/// gathered so far.
///
/// A line that begins no entry is passed over. An entry takes five lines, of
/// which the second names the directory and the fifth is the invocation; the
/// scan goes on behind them. An entry that precompiles a header adds to the
/// headers; one that compiles a file adds a record, made with the headers
/// known at that point. The first entry that is cut short, or whose
/// invocation lacks what is looked for, ends the scan with an error.
pub open spec fn scan(
    lines: Seq<Seq<char>>,
    i: int,
    headers: Map<Seq<char>, Seq<char>>,
    records: Seq<CompileRecord>,
) -> Scan
    decreases lines.len() - i,
{
    if i < 0 || i >= lines.len() {
        Scan { headers, outcome: Ok(records) }
    } else {
        match entry_kind(lines[i]) {
            None => scan(lines, i + 1, headers, records),
            Some(kind) => if i + INVOCATION_OFFSET >= lines.len() {
                Scan { headers, outcome: Err(ParseError::Truncated { line: (i + 1) as usize }) }
            } else {
                let invocation = lines[i + INVOCATION_OFFSET];
                match kind {
                    EntryKind::ProcessPch => match compiled_header(invocation) {
                        Some((header, compiled)) => scan(
                            lines,
                            i + ENTRY_LINES,
                            headers.insert(compiled, header),
                            records,
                        ),
                        None => Scan {
                            headers,
                            outcome: Err(
                                ParseError::NoHeaderPair {
                                    line: (i + INVOCATION_OFFSET + 1) as usize,
                                },
                            ),
                        },
                    },
                    EntryKind::CompileC => match source_file(invocation) {
                        Some(file) => scan(
                            lines,
                            i + ENTRY_LINES,
                            headers,
                            records.push(
                                CompileRecord {
                                    directory: directory_of(lines[i + DIRECTORY_OFFSET]),
                                    command: command_of(headers, invocation),
                                    file,
                                },
                            ),
                        ),
                        None => Scan {
                            headers,
                            outcome: Err(
                                ParseError::NoSourceFile {
                                    line: (i + INVOCATION_OFFSET + 1) as usize,
                                },
                            ),
                        },
                    },
                }
            },
        }
    }
}

/// What parsing the transcript `text` leads to, with `headers` known
/// beforehand.
pub open spec fn parse(headers: Map<Seq<char>, Seq<char>>, text: Seq<char>) -> Scan {
    scan(lines(text), 0, headers, Seq::empty())
}

/// The headers that a table holds, as sequences of characters.
pub open spec fn header_texts(table: Map<Seq<char>, String>) -> Map<Seq<char>, Seq<char>> {
    table.map_values(|header: String| header@)
}

/// Notes in `table` that `compiled` was made from `header`.
fn learn(table: &mut StringHashMap<String>, compiled: &[char], header: &[char])
    ensures
        header_texts(final(table)@) == header_texts(old(table)@).insert(compiled@, header@),
{
    let key = string_of(compiled);
    let value = string_of(header);
    table.insert(key, value);
    assert(header_texts(table@) =~= header_texts(old(table)@).insert(compiled@, header@));
}

/// A parser of build transcripts. It keeps, from one transcript to the next,
/// the headers that it has seen precompiled.
pub struct XCodeBuildParser {
    pch_map: StringHashMap<String>,
}

impl View for XCodeBuildParser {
    type V = Map<Seq<char>, Seq<char>>;

    /// The headers that the parser knows: for the name of each compiled
    /// header, the header that it was made from.
    closed spec fn view(&self) -> Map<Seq<char>, Seq<char>> {
        header_texts(self.pch_map@)
    }
}

impl XCodeBuildParser {
    /// A parser that knows no header.
    pub fn new() -> (parser: XCodeBuildParser)
        ensures
            parser@ == Map::<Seq<char>, Seq<char>>::empty(),
    {
        let parser = XCodeBuildParser { pch_map: StringHashMap::new() };
        assert(parser@ =~= Map::<Seq<char>, Seq<char>>::empty());
        parser
    }

    /// The header that the compiled header `precompiled_header` was made
    /// from, where the parser has seen it precompiled.
    pub fn pch_header_for(&self, precompiled_header: &String) -> (header: Option<String>)
        ensures
            match header {
                Some(h) => self@.contains_key(precompiled_header@) && h@
                    == self@[precompiled_header@],
                None => !self@.contains_key(precompiled_header@),
            },
    {
        match self.pch_map.get(precompiled_header.as_str()) {
            Some(h) => Some(h.clone()),
            None => None,
        }
    }

    /// Reads the invocation of an entry that precompiles a header, and notes
    /// the header that the compiled one was made from. Tells whether the
    /// invocation named the two.
    pub fn process_compiled_header(&mut self, command_line: &str) -> (found: bool)
        ensures
            found == compiled_header(command_line@) is Some,
            final(self)@ == match compiled_header(command_line@) {
                Some((header, compiled)) => old(self)@.insert(compiled, header),
                None => old(self)@,
            },
    {
        let patterns = Patterns::new();
        let line = chars_of(command_line);
        match patterns.compiled_header(line.as_slice()) {
            Some((header, compiled)) => {
                learn(&mut self.pch_map, compiled.as_slice(), header.as_slice());
                true
            },
            None => false,
        }
    }

    /// The invocation `line` with the header that it includes put back in
    /// place of the compiled one. The headers are those that the parser
    /// knows and those of `learned`, which come first.
    fn substitute(
        &self,
        learned: &StringHashMap<String>,
        patterns: &Patterns,
        line: &[char],
    ) -> (command: Vec<char>)
        requires
            patterns.wf(),
        ensures
            command@ == substituted(
                self@.union_prefer_right(header_texts(learned@)),
                line@,
            ),
    {
        match patterns.included_header(line) {
            Some(compiled) => {
                let mut name: Vec<char> = Vec::new();
                append_chars(&mut name, compiled.as_slice());
                append_chars(&mut name, patterns.compiled_suffix.as_slice());
                assert(name@ =~= compiled@ + compiled_suffix());
                let key = string_of(name.as_slice());
                let known = match learned.get(key.as_str()) {
                    Some(header) => Some(header),
                    None => self.pch_map.get(key.as_str()),
                };
                match known {
                    Some(header) => {
                        let header = chars_of(header.as_str());
                        replace(line, compiled.as_slice(), header.as_slice())
                    },
                    None => slice_of(line, 0, line.len()),
                }
            },
            None => slice_of(line, 0, line.len()),
        }
    }

    /// The file and the command that the invocation `line` gives.
    fn read_invocation(
        &self,
        learned: &StringHashMap<String>,
        patterns: &Patterns,
        line: &[char],
    ) -> (r: Option<(String, String)>)
        requires
            patterns.wf(),
        ensures
            match r {
                Some((file, command)) => source_file(line@) == Some(file@) && command@
                    == command_of(self@.union_prefer_right(header_texts(learned@)), line@),
                None => source_file(line@) is None,
            },
    {
        let word_at = word_classes_of(line);
        match patterns.source_file(line, word_at.as_slice()) {
            Some(file) => {
                let command = self.substitute(learned, patterns, line);
                let command = trimmed(command.as_slice());
                Some((string_of(file.as_slice()), string_of(command.as_slice())))
            },
            None => None,
        }
    }

    /// Reads the invocation of an entry that compiles a file. Gives the file
    /// and the command of the record: the invocation without the white space
    /// at its ends, the header that it includes put back in place of the
    /// compiled one. Gives nothing where the invocation names no file.
    pub fn parse_command_line(&self, command_line: &str) -> (r: Option<(String, String)>)
        ensures
            match r {
                Some((file, command)) => source_file(command_line@) == Some(file@) && command@
                    == command_of(self@, command_line@),
                None => source_file(command_line@) is None,
            },
    {
        let patterns = Patterns::new();
        let learned: StringHashMap<String> = StringHashMap::new();
        let line = chars_of(command_line);
        assert(self@.union_prefer_right(header_texts(learned@)) =~= self@);
        self.read_invocation(&learned, &patterns, line.as_slice())
    }

    /// Reads a transcript. Gives the records of the files that it compiles, in
    /// the order of the transcript, and learns the headers that it
    /// precompiles; or refuses the transcript at its first entry that cannot
    /// be read, gives no record at all and learns nothing.
    pub fn parse_output(&mut self, xcodebuild_output: &str) -> (r: Result<
        Vec<CommandData>,
        ParseError,
    >)
        ensures
            match r {
                Ok(records) => parse(old(self)@, xcodebuild_output@) == (Scan {
                    headers: final(self)@,
                    outcome: Ok(records_view(records@)),
                }),
                Err(e) => parse(old(self)@, xcodebuild_output@).outcome == Err::<
                    Seq<CompileRecord>,
                    ParseError,
                >(e) && final(self)@ == old(self)@,
            },
    {
        let patterns = Patterns::new();
        let text = chars_of(xcodebuild_output);
        let rows = split_lines(text.as_slice());
        let ghost ls = lines_view(rows@);
        let mut learned: StringHashMap<String> = StringHashMap::new();
        let mut records: Vec<CommandData> = Vec::new();
        let mut i: usize = 0;
        assert(records_view(records@) =~= Seq::<CompileRecord>::empty());
        assert(self@.union_prefer_right(header_texts(learned@)) =~= self@);
        while i < rows.len()
            invariant
                patterns.wf(),
                ls == lines_view(rows@),
                ls == lines(xcodebuild_output@),
                self@ == old(self)@,
                scan(
                    ls,
                    i as int,
                    self@.union_prefer_right(header_texts(learned@)),
                    records_view(records@),
                ) == parse(old(self)@, xcodebuild_output@),
            decreases rows.len() - i,
        {
            assert(ls[i as int] == rows@[i as int]@);
            let kind = match patterns.entry_kind(rows[i].as_slice()) {
                Some(kind) => kind,
                None => {
                    i += 1;
                    continue ;
                },
            };
            if rows.len() - i <= INVOCATION_OFFSET {
                return Err(ParseError::Truncated { line: i + 1 });
            }
            assert(ls[i + INVOCATION_OFFSET] == rows@[i + INVOCATION_OFFSET]@);
            assert(ls[i + DIRECTORY_OFFSET] == rows@[i + DIRECTORY_OFFSET]@);
            let invocation = rows[i + INVOCATION_OFFSET].as_slice();
            match kind {
                EntryKind::ProcessPch => {
                    match patterns.compiled_header(invocation) {
                        Some((header, compiled)) => {
                            let ghost before = header_texts(learned@);
                            learn(&mut learned, compiled.as_slice(), header.as_slice());
                            assert(self@.union_prefer_right(header_texts(learned@))
                                =~= self@.union_prefer_right(before).insert(
                                compiled@,
                                header@,
                            ));
                        },
                        None => {
                            return Err(
                                ParseError::NoHeaderPair { line: i + INVOCATION_OFFSET + 1 },
                            );
                        },
                    }
                },
                EntryKind::CompileC => {
                    match self.read_invocation(&learned, &patterns, invocation) {
                        Some((file, command)) => {
                            let directory = patterns.directory_of(
                                rows[i + DIRECTORY_OFFSET].as_slice(),
                            );
                            let record = CommandData {
                                directory: string_of(directory.as_slice()),
                                command,
                                file,
                            };
                            assert(records_view(records@.push(record)) =~= records_view(
                                records@,
                            ).push(record@));
                            records.push(record);
                        },
                        None => {
                            return Err(
                                ParseError::NoSourceFile { line: i + INVOCATION_OFFSET + 1 },
                            );
                        },
                    }
                },
            }
            i += ENTRY_LINES;
        }
        let ghost gathered = header_texts(learned@);
        self.pch_map.union_prefer_right(learned);
        assert(self@ =~= old(self)@.union_prefer_right(gathered));
        Ok(records)
    }
}

/// Replacing a text by itself changes nothing.
pub proof fn lemma_replace_by_itself(s: Seq<char>, pat: Seq<char>)
    ensures
        replace_all(s, pat, pat) == s,
    decreases s.len(),
{
    if pat.len() == 0 || s.len() == 0 {
    } else if starts_with(s, pat) {
        lemma_replace_by_itself(s.skip(pat.len() as int), pat);
        assert(pat + s.skip(pat.len() as int) =~= s);
    } else {
        lemma_replace_by_itself(s.skip(1), pat);
        assert(seq![s[0]] + s.skip(1) =~= s);
    }
}

/// An invocation in which the include flag does not stand gives its own text
/// as the command, without the white space at its ends, whatever headers are
/// known.
pub proof fn lemma_command_without_include(headers: Map<Seq<char>, Seq<char>>, line: Seq<char>)
    requires
        !contains(line, include_flag()),
    ensures
        included_header(line) is None,
        command_of(headers, line) == trim(line),
{
    lemma_first_where(0, line.len() as int + 1, occurrence(line, include_flag()));
    match first_occurrence(line, include_flag(), 0) {
        Some(p) => {
            assert(occurs_at(line, include_flag(), p));
        },
        None => {},
    }
}

/// Wherever in a transcript an entry compiles a file and includes nothing,
/// the record that the scan takes from it has as its command the invocation
/// as it stands in the transcript, without the white space at its ends,
/// whatever headers are known; and the scan goes on behind the entry with
/// the same headers.
pub proof fn lemma_scan_entry_without_include(
    lines: Seq<Seq<char>>,
    i: int,
    headers: Map<Seq<char>, Seq<char>>,
    records: Seq<CompileRecord>,
)
    requires
        0 <= i,
        i + INVOCATION_OFFSET < lines.len(),
        entry_kind(lines[i]) == Some(EntryKind::CompileC),
        source_file(lines[i + INVOCATION_OFFSET]) is Some,
        !contains(lines[i + INVOCATION_OFFSET], include_flag()),
    ensures
        scan(lines, i, headers, records) == scan(
            lines,
            i + ENTRY_LINES,
            headers,
            records.push(
                CompileRecord {
                    directory: directory_of(lines[i + DIRECTORY_OFFSET]),
                    command: trim(lines[i + INVOCATION_OFFSET]),
                    file: source_file(lines[i + INVOCATION_OFFSET])->0,
                },
            ),
        ),
{
    lemma_command_without_include(headers, lines[i + INVOCATION_OFFSET]);
}

/// A transcript of one entry that compiles a file and includes nothing gives
/// one record, whose command is the invocation as it stands in the
/// transcript, without the white space at its ends. The headers that are
/// known play no part and stay as they are.
pub proof fn lemma_entry_without_include(
    headers: Map<Seq<char>, Seq<char>>,
    transcript: Seq<char>,
    entry: Seq<Seq<char>>,
)
    requires
        lines(transcript) == entry,
        entry.len() == ENTRY_LINES,
        entry_kind(entry[0]) == Some(EntryKind::CompileC),
        source_file(entry[INVOCATION_OFFSET as int]) is Some,
        !contains(entry[INVOCATION_OFFSET as int], include_flag()),
    ensures
        parse(headers, transcript) == (Scan {
            headers,
            outcome: Ok(
                seq![
                    CompileRecord {
                        directory: directory_of(entry[DIRECTORY_OFFSET as int]),
                        command: trim(entry[INVOCATION_OFFSET as int]),
                        file: source_file(entry[INVOCATION_OFFSET as int])->0,
                    },
                ],
            ),
        }),
{
    reveal_with_fuel(scan, 2);
    lemma_command_without_include(headers, entry[INVOCATION_OFFSET as int]);
    let record = CompileRecord {
        directory: directory_of(entry[DIRECTORY_OFFSET as int]),
        command: trim(entry[INVOCATION_OFFSET as int]),
        file: source_file(entry[INVOCATION_OFFSET as int])->0,
    };
    assert(Seq::<CompileRecord>::empty().push(record) =~= seq![record]);
}

/// A header that is precompiled and then included comes back in the command.
/// The transcript holds two entries. The first precompiles `header` into
/// `compiled`. The second compiles a file and includes `named`, which with
/// the suffix of compiled headers is `compiled`. Then the one record that
/// parsing gives has as its command the second invocation with `header` in
/// place of `named`, without the white space at its ends.
pub proof fn lemma_header_round_trip(
    headers: Map<Seq<char>, Seq<char>>,
    transcript: Seq<char>,
    first: Seq<Seq<char>>,
    second: Seq<Seq<char>>,
    header: Seq<char>,
    compiled: Seq<char>,
    named: Seq<char>,
)
    requires
        lines(transcript) == first + second,
        first.len() == ENTRY_LINES,
        entry_kind(first[0]) == Some(EntryKind::ProcessPch),
        compiled_header(first[INVOCATION_OFFSET as int]) == Some((header, compiled)),
        second.len() == ENTRY_LINES,
        entry_kind(second[0]) == Some(EntryKind::CompileC),
        source_file(second[INVOCATION_OFFSET as int]) is Some,
        included_header(second[INVOCATION_OFFSET as int]) == Some(named),
        named + compiled_suffix() == compiled,
    ensures
        parse(headers, transcript) == (Scan {
            headers: headers.insert(compiled, header),
            outcome: Ok(
                seq![
                    CompileRecord {
                        directory: directory_of(second[DIRECTORY_OFFSET as int]),
                        command: trim(
                            replace_all(second[INVOCATION_OFFSET as int], named, header),
                        ),
                        file: source_file(second[INVOCATION_OFFSET as int])->0,
                    },
                ],
            ),
        }),
{
    reveal_with_fuel(scan, 3);
    let all = first + second;
    let known = headers.insert(compiled, header);
    assert(all[0] == first[0]);
    assert(all[INVOCATION_OFFSET as int] == first[INVOCATION_OFFSET as int]);
    assert(all[ENTRY_LINES as int] == second[0]);
    assert(all[ENTRY_LINES + DIRECTORY_OFFSET] == second[DIRECTORY_OFFSET as int]);
    assert(all[ENTRY_LINES + INVOCATION_OFFSET] == second[INVOCATION_OFFSET as int]);
    let record = CompileRecord {
        directory: directory_of(second[DIRECTORY_OFFSET as int]),
        command: command_of(known, second[INVOCATION_OFFSET as int]),
        file: source_file(second[INVOCATION_OFFSET as int])->0,
    };
    assert(Seq::<CompileRecord>::empty().push(record) =~= seq![record]);
}

/// A header that is precompiled only after a file was compiled plays no
/// part in the record of that file: an entry is read with the headers that
/// the entries before it have given, and with no others.
pub proof fn lemma_header_after_use(
    headers: Map<Seq<char>, Seq<char>>,
    transcript: Seq<char>,
    first: Seq<Seq<char>>,
    second: Seq<Seq<char>>,
    header: Seq<char>,
    compiled: Seq<char>,
)
    requires
        lines(transcript) == first + second,
        first.len() == ENTRY_LINES,
        entry_kind(first[0]) == Some(EntryKind::CompileC),
        source_file(first[INVOCATION_OFFSET as int]) is Some,
        second.len() == ENTRY_LINES,
        entry_kind(second[0]) == Some(EntryKind::ProcessPch),
        compiled_header(second[INVOCATION_OFFSET as int]) == Some((header, compiled)),
    ensures
        parse(headers, transcript) == (Scan {
            headers: headers.insert(compiled, header),
            outcome: Ok(
                seq![
                    CompileRecord {
                        directory: directory_of(first[DIRECTORY_OFFSET as int]),
                        command: command_of(headers, first[INVOCATION_OFFSET as int]),
                        file: source_file(first[INVOCATION_OFFSET as int])->0,
                    },
                ],
            ),
        }),
{
    reveal_with_fuel(scan, 3);
    let all = first + second;
    assert(all[0] == first[0]);
    assert(all[DIRECTORY_OFFSET as int] == first[DIRECTORY_OFFSET as int]);
    assert(all[INVOCATION_OFFSET as int] == first[INVOCATION_OFFSET as int]);
    assert(all[ENTRY_LINES as int] == second[0]);
    assert(all[ENTRY_LINES + INVOCATION_OFFSET] == second[INVOCATION_OFFSET as int]);
    let record = CompileRecord {
        directory: directory_of(first[DIRECTORY_OFFSET as int]),
        command: command_of(headers, first[INVOCATION_OFFSET as int]),
        file: source_file(first[INVOCATION_OFFSET as int])->0,
    };
    assert(Seq::<CompileRecord>::empty().push(record) =~= seq![record]);
}

/// Putting the headers back a second time changes nothing, if the first time
/// left no compiled header behind: the invocation that came out includes
/// nothing, or a header that is not known as a compiled one, or one that
/// stands for itself.
pub proof fn lemma_substitution_idempotent(headers: Map<Seq<char>, Seq<char>>, line: Seq<char>)
    requires
        included_header(substituted(headers, line)) matches Some(named) ==> (headers.contains_key(
            named + compiled_suffix(),
        ) ==> headers[named + compiled_suffix()] == named),
    ensures
        substituted(headers, substituted(headers, line)) == substituted(headers, line),
{
    let once = substituted(headers, line);
    match included_header(once) {
        Some(named) => {
            lemma_replace_by_itself(once, named);
        },
        None => {},
    }
}

} // verus!
