//! The compilation database: for each file of a build, how it was compiled.

use crate::text::{
    chars_of, last_where, lemma_last_where, lines_view, split_words, string_of, words,
};
use crate::types::CXCompilationDatabase_Error;
use crate::xcodebuild_parser::{records_view, CommandData, CompileRecord};
use vstd::hash_map::StringHashMap;
use vstd::prelude::*;

verus! {

/// The record at position `i` is the last one about its file.
pub open spec fn is_latest(records: Seq<CompileRecord>, i: int) -> bool {
    forall|j: int| i < j < records.len() ==> (#[trigger] records[j]).file != records[i].file
}

/// Of the first `n` records, those that are the last about their file, in
/// the order in which they stand.
pub open spec fn latest_upto(records: Seq<CompileRecord>, n: int) -> Seq<CompileRecord>
    decreases n,
{
    if n <= 0 {
        Seq::empty()
    } else if is_latest(records, n - 1) {
        latest_upto(records, n - 1).push(records[n - 1])
    } else {
        latest_upto(records, n - 1)
    }
}

/// The records that are the last about their file, in the order in which
/// they stand: what is left when of several records about one file only the
/// last is kept.
pub open spec fn latest(records: Seq<CompileRecord>) -> Seq<CompileRecord> {
    latest_upto(records, records.len() as int)
}

/// The records by file, a later record taking the place of an earlier one
/// about the same file.
pub open spec fn record_map(records: Seq<CompileRecord>) -> Map<Seq<char>, CompileRecord>
    decreases records.len(),
{
    if records.len() == 0 {
        Map::empty()
    } else {
        record_map(records.drop_last()).insert(records.last().file, records.last())
    }
}

/// A file that no record is about has no record in the map.
pub proof fn lemma_record_map_without(records: Seq<CompileRecord>, file: Seq<char>)
    requires
        forall|i: int| 0 <= i < records.len() ==> (#[trigger] records[i]).file != file,
    ensures
        !record_map(records).contains_key(file),
    decreases records.len(),
{
    if records.len() > 0 {
        let front = records.drop_last();
        assert forall|i: int| 0 <= i < front.len() implies (#[trigger] front[i]).file != file by {
            assert(front[i] == records[i]);
        }
        lemma_record_map_without(front, file);
    }
}

/// The map gives, for a file, the last record about it.
pub proof fn lemma_record_map_latest(records: Seq<CompileRecord>, i: int)
    requires
        0 <= i < records.len(),
        is_latest(records, i),
    ensures
        record_map(records).contains_key(records[i].file),
        record_map(records)[records[i].file] == records[i],
    decreases records.len(),
{
    if i < records.len() - 1 {
        let front = records.drop_last();
        assert(front[i] == records[i]);
        assert forall|j: int| i < j < front.len() implies (#[trigger] front[j]).file
            != front[i].file by {
            assert(front[j] == records[j]);
        }
        lemma_record_map_latest(front, i);
        assert(records.last() == records[records.len() - 1]);
    }
}

/// The test "the record at this position is about `file`".
pub open spec fn names_file(records: Seq<CompileRecord>, file: Seq<char>) -> spec_fn(int) -> bool {
    |i: int| 0 <= i < records.len() && records[i].file == file
}

/// What a search for `file` in the map `db` gives.
pub open spec fn lookup(db: Map<Seq<char>, CompileRecord>, file: Seq<char>) -> Option<
    CompileRecord,
> {
    if db.contains_key(file) {
        Some(db[file])
    } else {
        None
    }
}

/// What a search gives is decided by the records that the database was made
/// of and by the path alone: it is the last of the records about the path as
/// it is spelt, and nothing where there is none.
pub proof fn lemma_lookup_gives_last_record(records: Seq<CompileRecord>, file: Seq<char>)
    ensures
        lookup(record_map(records), file) == match last_where(
            0,
            records.len() as int,
            names_file(records, file),
        ) {
            Some(i) => Some(records[i]),
            None => None,
        },
{
    lemma_last_where(0, records.len() as int, names_file(records, file));
    match last_where(0, records.len() as int, names_file(records, file)) {
        Some(i) => {
            assert forall|j: int| i < j < records.len() implies (#[trigger] records[j]).file
                != records[i].file by {
                assert(!names_file(records, file)(j));
            }
            lemma_record_map_latest(records, i);
        },
        None => {
            assert forall|j: int| 0 <= j < records.len() implies (#[trigger] records[j]).file
                != file by {
                assert(!names_file(records, file)(j));
            }
            lemma_record_map_without(records, file);
        },
    }
}

/// Among the first `n` records, the map of those that are kept holds every
/// record that is the last about its file, and no file but those of the
/// records.
proof fn lemma_latest_upto_map(records: Seq<CompileRecord>, n: int)
    requires
        0 <= n <= records.len(),
    ensures
        forall|j: int|
            0 <= j < n && is_latest(records, j) ==> record_map(
                latest_upto(records, n),
            ).contains_key((#[trigger] records[j]).file) && record_map(
                latest_upto(records, n),
            )[records[j].file] == records[j],
        forall|file: Seq<char>| #[trigger]
            record_map(latest_upto(records, n)).contains_key(file) ==> record_map(
                records,
            ).contains_key(file),
    decreases n,
{
    if n > 0 {
        lemma_latest_upto_map(records, n - 1);
        let before = latest_upto(records, n - 1);
        let now = latest_upto(records, n);
        if is_latest(records, n - 1) {
            let added = records[n - 1];
            assert(now.drop_last() =~= before);
            assert(now.last() == added);
            assert(record_map(now) == record_map(before).insert(added.file, added));
            lemma_record_map_latest(records, n - 1);
            assert forall|j: int| 0 <= j < n && is_latest(records, j) implies record_map(
                now,
            ).contains_key((#[trigger] records[j]).file) && record_map(now)[records[j].file]
                == records[j] by {
                if j < n - 1 {
                    assert(records[n - 1].file != records[j].file);
                }
            }
        }
    }
}

/// To keep only the last record about each file changes nothing in what a
/// search gives: the records that are kept make the same map as all of them.
pub proof fn lemma_latest_keeps_the_map(records: Seq<CompileRecord>)
    ensures
        record_map(latest(records)) == record_map(records),
{
    lemma_latest_upto_map(records, records.len() as int);
    assert forall|file: Seq<char>|
        record_map(records).contains_key(file) implies #[trigger] record_map(
        latest(records),
    ).contains_key(file) && record_map(latest(records))[file] == record_map(records)[file] by {
        lemma_lookup_gives_last_record(records, file);
        lemma_last_where(0, records.len() as int, names_file(records, file));
        let i = last_where(0, records.len() as int, names_file(records, file))->0;
        assert forall|j: int| i < j < records.len() implies (#[trigger] records[j]).file
            != records[i].file by {
            assert(!names_file(records, file)(j));
        }
        assert(is_latest(records, i));
    }
    assert(record_map(latest(records)) =~= record_map(records));
}

/// Of two records about one file, the later is the one that is kept.
pub proof fn lemma_later_record_wins(earlier: CompileRecord, later: CompileRecord)
    requires
        earlier.file == later.file,
    ensures
        latest(seq![earlier, later]) == seq![later],
        record_map(seq![earlier, later]) == Map::<Seq<char>, CompileRecord>::empty().insert(
            later.file,
            later,
        ),
{
    let both = seq![earlier, later];
    reveal_with_fuel(latest_upto, 3);
    reveal_with_fuel(record_map, 3);
    assert(is_latest(both, 1));
    assert(!is_latest(both, 0)) by {
        assert(both[1].file == both[0].file);
    }
    assert(latest(both) =~= seq![later]);
    assert(both.drop_last() =~= seq![earlier]);
    assert(both.drop_last().drop_last() =~= Seq::<CompileRecord>::empty());
    assert(record_map(both) =~= Map::<Seq<char>, CompileRecord>::empty().insert(
        later.file,
        later,
    ));
}

/// What the analysis engine needs to read a file as the build did: the
/// directory the compiler ran in, and the arguments it was given.
#[derive(Debug)]
pub struct CompilationCommand {
    pub cwd: String,
    pub args: Vec<String>,
}

/// A command for the engine as a mathematical value.
pub struct EngineCommand {
    pub cwd: Seq<char>,
    pub args: Seq<Seq<char>>,
}

/// The strings of a vector, as sequences of characters.
pub open spec fn strings_view(v: Seq<String>) -> Seq<Seq<char>> {
    v.map_values(|s: String| s@)
}

impl View for CompilationCommand {
    type V = EngineCommand;

    open spec fn view(&self) -> EngineCommand {
        EngineCommand { cwd: self.cwd@, args: strings_view(self.args@) }
    }
}

/// The number of words at the start of an invocation that are no argument
/// for the engine: the compiler's name.
pub const LEADING_WORDS: usize = 1;

/// The number of words at the end of an invocation that are no argument for
/// the engine: the flag and the name of the file compiled, and the flag and
/// the name of the file written.
pub const TRAILING_WORDS: usize = 4;

/// The arguments for the engine among the words of an invocation: all but
/// the first one and the last four. An invocation of fewer words than these
/// five has none.
pub open spec fn compiler_arguments(words: Seq<Seq<char>>) -> Seq<Seq<char>> {
    if words.len() >= LEADING_WORDS + TRAILING_WORDS {
        words.subrange(LEADING_WORDS as int, words.len() - TRAILING_WORDS)
    } else {
        Seq::empty()
    }
}

/// The command for the engine that a record gives: the directory of the
/// record, and the arguments among the words of its command. The command is
/// split at white space; quotes are not read.
pub open spec fn engine_command(record: CompileRecord) -> EngineCommand {
    EngineCommand { cwd: record.directory, args: compiler_arguments(words(record.command)) }
}

impl CompilationCommand {
    /// The command for the engine that the record `compile_command` gives.
    pub fn new(compile_command: &CommandData) -> (command: CompilationCommand)
        ensures
            command@ == engine_command(compile_command@),
    {
        let text = chars_of(compile_command.command.as_str());
        let all = split_words(text.as_slice());
        let mut args: Vec<String> = Vec::new();
        if all.len() >= LEADING_WORDS + TRAILING_WORDS {
            let end = all.len() - TRAILING_WORDS;
            let mut i: usize = LEADING_WORDS;
            assert(strings_view(args@) =~= lines_view(all@).subrange(
                LEADING_WORDS as int,
                i as int,
            ));
            while i < end
                invariant
                    LEADING_WORDS <= i <= end,
                    end == all.len() - TRAILING_WORDS,
                    strings_view(args@) == lines_view(all@).subrange(
                        LEADING_WORDS as int,
                        i as int,
                    ),
                decreases end - i,
            {
                let arg = string_of(all[i].as_slice());
                proof {
                    assert(lines_view(all@)[i as int] == arg@);
                    assert(strings_view(args@.push(arg)) =~= strings_view(args@).push(arg@));
                    assert(lines_view(all@).subrange(LEADING_WORDS as int, i + 1) =~= lines_view(
                        all@,
                    ).subrange(LEADING_WORDS as int, i as int).push(arg@));
                }
                args.push(arg);
                i += 1;
            }
        } else {
            assert(strings_view(args@) =~= Seq::<Seq<char>>::empty());
        }
        CompilationCommand { cwd: compile_command.directory.clone(), args }
    }
}

/// The compilation database: the records of a build, one for each file, and
/// found by file.
pub struct CompilationDatabase {
    records: Vec<CommandData>,
    index: StringHashMap<usize>,
}

impl View for CompilationDatabase {
    type V = Map<Seq<char>, CompileRecord>;

    /// The record of each file that the database knows.
    closed spec fn view(&self) -> Map<Seq<char>, CompileRecord> {
        Map::new(
            |file: Seq<char>| self.index@.contains_key(file),
            |file: Seq<char>| self.records@[self.index@[file] as int]@,
        )
    }
}

impl CompilationDatabase {
    /// The index leads from each file to the one record about it.
    #[verifier::type_invariant]
    spec fn wf(&self) -> bool {
        &&& forall|k: int|
            0 <= k < self.records@.len() ==> self.index@.contains_key(
                (#[trigger] self.records@[k]).file@,
            ) && self.index@[self.records@[k].file@] == k
        &&& forall|file: Seq<char>| #[trigger]
            self.index@.contains_key(file) ==> 0 <= self.index@[file] < self.records@.len()
                && self.records@[self.index@[file] as int].file@ == file
    }

    /// The records of the database, in the order in which it keeps them.
    pub closed spec fn entries(&self) -> Seq<CompileRecord> {
        records_view(self.records@)
    }

    /// The database of `records`. Of several records about one file it keeps
    /// only the last; the records that it keeps stay in their order.
    pub fn from_records(records: Vec<CommandData>) -> (db: CompilationDatabase)
        ensures
            db.entries() == latest(records_view(records@)),
            db@ == record_map(records_view(records@)),
    {
        let ghost input = records_view(records@);
        let mut last: StringHashMap<usize> = StringHashMap::new();
        let mut i: usize = 0;
        while i < records.len()
            invariant
                i <= records.len(),
                input == records_view(records@),
                forall|j: int|
                    0 <= j < i ==> last@.contains_key((#[trigger] input[j]).file) && last@[input[j].file]
                        >= j,
                forall|file: Seq<char>| #[trigger]
                    last@.contains_key(file) ==> 0 <= last@[file] < i && input[last@[file] as int].file
                        == file,
            decreases records.len() - i,
        {
            assert(input[i as int] == records@[i as int]@);
            last.insert(records[i].file.clone(), i);
            i += 1;
        }
        let mut kept: Vec<CommandData> = Vec::new();
        let mut index: StringHashMap<usize> = StringHashMap::new();
        let mut i: usize = 0;
        assert(records_view(kept@) =~= latest_upto(input, 0));
        while i < records.len()
            invariant
                i <= records.len(),
                input == records_view(records@),
                forall|j: int|
                    0 <= j < records.len() ==> last@.contains_key((#[trigger] input[j]).file)
                        && last@[input[j].file] >= j,
                forall|file: Seq<char>| #[trigger]
                    last@.contains_key(file) ==> 0 <= last@[file] < records.len()
                        && input[last@[file] as int].file == file,
                records_view(kept@) == latest_upto(input, i as int),
                forall|k: int|
                    0 <= k < kept@.len() ==> index@.contains_key((#[trigger] kept@[k]).file@)
                        && index@[kept@[k].file@] == k,
                forall|file: Seq<char>| #[trigger]
                    index@.contains_key(file) ==> 0 <= index@[file] < kept@.len()
                        && kept@[index@[file] as int].file@ == file && last@.contains_key(file)
                        && last@[file] < i && kept@[index@[file] as int]@ == input[last@[file] as int],
                forall|file: Seq<char>| #[trigger]
                    last@.contains_key(file) && last@[file] < i ==> index@.contains_key(file),
            decreases records.len() - i,
        {
            assert(input[i as int] == records@[i as int]@);
            let ghost file = input[i as int].file;
            let is_last = match last.get(records[i].file.as_str()) {
                Some(j) => *j == i,
                None => false,
            };
            proof {
                if is_last {
                    assert forall|j: int| i < j < input.len() implies (#[trigger] input[j]).file
                        != file by {
                        if input[j].file == file {
                            assert(last@[input[j].file] >= j);
                        }
                    }
                    assert(is_latest(input, i as int));
                } else {
                    let j = last@[file] as int;
                    assert(i < j < input.len() && input[j].file == file);
                    assert(!is_latest(input, i as int));
                }
            }
            if is_last {
                let record = records[i].clone();
                assert(record@ == input[i as int]);
                assert(!index@.contains_key(file));
                index.insert(records[i].file.clone(), kept.len());
                assert(records_view(kept@.push(record)) =~= records_view(kept@).push(record@));
                kept.push(record);
            }
            i += 1;
        }
        let db = CompilationDatabase { records: kept, index };
        proof {
            assert(db@ =~= record_map(input)) by {
                assert forall|file: Seq<char>| #[trigger]
                    db@.contains_key(file) == record_map(input).contains_key(file) && (db@.contains_key(
                        file,
                    ) ==> db@[file] == record_map(input)[file]) by {
                    if last@.contains_key(file) {
                        let j = last@[file] as int;
                        assert forall|k: int| j < k < input.len() implies (#[trigger] input[k]).file
                            != input[j].file by {
                            if input[k].file == file {
                                assert(last@[input[k].file] >= k);
                            }
                        }
                        lemma_record_map_latest(input, j);
                    } else {
                        lemma_record_map_without(input, file);
                    }
                }
            }
        }
        db
    }

    /// The database of a directory, made of the records read from the
    /// file that the directory keeps them in. `records` is nothing where
    /// that file could not be read; there is no database then.
    pub fn from_directory(records: Option<Vec<CommandData>>) -> (r: Result<
        CompilationDatabase,
        CXCompilationDatabase_Error,
    >)
        ensures
            match r {
                Ok(db) => records matches Some(read) && db.entries() == latest(
                    records_view(read@),
                ) && db@ == record_map(records_view(read@)),
                Err(e) => records is None
                    && e == CXCompilationDatabase_Error::CXCompilationDatabase_CanNotLoadDatabase,
            },
    {
        match records {
            Some(read) => Ok(CompilationDatabase::from_records(read)),
            None => Err(CXCompilationDatabase_Error::CXCompilationDatabase_CanNotLoadDatabase),
        }
    }

    /// The record of `file_path`, if the database has one. A file is found
    /// by its path as the record spells it, and in no other way.
    pub fn record_for(&self, file_path: &str) -> (record: Option<&CommandData>)
        ensures
            match record {
                Some(r) => lookup(self@, file_path@) == Some(r@),
                None => lookup(self@, file_path@) is None,
            },
    {
        proof {
            use_type_invariant(self);
        }
        match self.index.get(file_path) {
            Some(k) => Some(&self.records[*k]),
            None => None,
        }
    }

    /// The command for the engine that the record of `file_name` gives, if
    /// the database has a record of the file.
    pub fn compilation_command_for(&self, file_name: &str) -> (command: Option<CompilationCommand>)
        ensures
            match command {
                Some(c) => self@.contains_key(file_name@) && c@ == engine_command(
                    self@[file_name@],
                ),
                None => !self@.contains_key(file_name@),
            },
    {
        match self.record_for(file_name) {
            Some(record) => Some(CompilationCommand::new(record)),
            None => None,
        }
    }

    /// The number of records.
    pub fn len(&self) -> (n: usize)
        ensures
            n == self.entries().len(),
    {
        self.records.len()
    }

    /// The records, in the order in which the database keeps them.
    pub fn records(&self) -> (records: &Vec<CommandData>)
        ensures
            records_view(records@) == self.entries(),
    {
        &self.records
    }
}

} // verus!
