//! Completions: what the analysis engine proposes at a place, and how a
//! proposal is written for an editor.

use crate::text::{append_chars, chars_of, string_of};
use crate::types::{CXAvailabilityKind, CXCompletionChunkKind};
use vstd::prelude::*;

verus! {

/// One part of a completion: a piece of text and what it is.
#[derive(Debug)]
pub struct CompletionChunk {
    pub kind: CXCompletionChunkKind,
    pub text: String,
}

/// A part of a completion as a mathematical value.
pub struct Chunk {
    pub kind: CXCompletionChunkKind,
    pub text: Seq<char>,
}

impl View for CompletionChunk {
    type V = Chunk;

    open spec fn view(&self) -> Chunk {
        Chunk { kind: self.kind, text: self.text@ }
    }
}

/// The parts of a vector, as mathematical values.
pub open spec fn chunks_view(v: Seq<CompletionChunk>) -> Seq<Chunk> {
    v.map_values(|c: CompletionChunk| c@)
}

impl Chunk {
    /// The part as it is shown when a completion is printed whole: the type
    /// of the result and a placeholder each in brackets of their own, any
    /// other part as its text.
    pub open spec fn shown(self) -> Seq<char> {
        match self.kind {
            CXCompletionChunkKind::CXCompletionChunk_ResultType => "[#"@ + self.text + "]"@,
            CXCompletionChunkKind::CXCompletionChunk_Placeholder => "<#"@ + self.text + ">"@,
            _ => self.text,
        }
    }

    /// What the part adds to the snippet of a completion: nothing for the
    /// type of the result, a field to fill in for a placeholder, its text
    /// for any other part.
    pub open spec fn snippet(self) -> Seq<char> {
        match self.kind {
            CXCompletionChunkKind::CXCompletionChunk_ResultType => Seq::empty(),
            CXCompletionChunkKind::CXCompletionChunk_Placeholder => "${"@ + self.text + "}"@,
            _ => self.text,
        }
    }

    /// What the part adds to the type of the result of a completion: its
    /// text where it is the type of the result, else nothing.
    pub open spec fn result_type(self) -> Seq<char> {
        match self.kind {
            CXCompletionChunkKind::CXCompletionChunk_ResultType => self.text,
            _ => Seq::empty(),
        }
    }
}

/// The parts of `chunks`, each as it is shown, one after the other.
pub open spec fn shown_text(chunks: Seq<Chunk>) -> Seq<char>
    decreases chunks.len(),
{
    if chunks.len() == 0 {
        Seq::empty()
    } else {
        shown_text(chunks.drop_last()) + chunks.last().shown()
    }
}

/// The snippet of a completion with the parts `chunks`.
pub open spec fn snippet_text(chunks: Seq<Chunk>) -> Seq<char>
    decreases chunks.len(),
{
    if chunks.len() == 0 {
        Seq::empty()
    } else {
        snippet_text(chunks.drop_last()) + chunks.last().snippet()
    }
}

/// The type of the result of a completion with the parts `chunks`.
pub open spec fn result_type_text(chunks: Seq<Chunk>) -> Seq<char>
    decreases chunks.len(),
{
    if chunks.len() == 0 {
        Seq::empty()
    } else {
        result_type_text(chunks.drop_last()) + chunks.last().result_type()
    }
}

/// A completion as an editor takes it: the snippet, a tab, and the type of
/// the result.
pub open spec fn yas_text(chunks: Seq<Chunk>) -> Seq<char> {
    snippet_text(chunks) + seq!['\t'] + result_type_text(chunks)
}

impl CompletionChunk {
    /// The part as it is shown when a completion is printed whole.
    pub fn to_string(&self) -> (s: String)
        ensures
            s@ == self@.shown(),
    {
        let text = chars_of(self.text.as_str());
        let mut out: Vec<char> = Vec::new();
        match self.kind {
            CXCompletionChunkKind::CXCompletionChunk_ResultType => {
                let open = chars_of("[#");
                let close = chars_of("]");
                append_chars(&mut out, open.as_slice());
                append_chars(&mut out, text.as_slice());
                append_chars(&mut out, close.as_slice());
            },
            CXCompletionChunkKind::CXCompletionChunk_Placeholder => {
                let open = chars_of("<#");
                let close = chars_of(">");
                append_chars(&mut out, open.as_slice());
                append_chars(&mut out, text.as_slice());
                append_chars(&mut out, close.as_slice());
            },
            _ => {
                append_chars(&mut out, text.as_slice());
            },
        }
        assert(out@ =~= self@.shown());
        string_of(out.as_slice())
    }
}

/// One proposal of the analysis engine.
#[derive(Debug)]
pub struct CompletionResult {
    /// The weight by which the engine orders its proposals; a lower one
    /// comes first.
    pub priority: usize,
    /// What the documentation says of the proposal in brief, if anything.
    pub comment: Option<String>,
    pub availability: CXAvailabilityKind,
    pub chunks: Vec<CompletionChunk>,
}

/// A proposal as a mathematical value.
pub struct Completion {
    pub priority: nat,
    pub comment: Option<Seq<char>>,
    pub availability: CXAvailabilityKind,
    pub chunks: Seq<Chunk>,
}

impl View for CompletionResult {
    type V = Completion;

    open spec fn view(&self) -> Completion {
        Completion {
            priority: self.priority as nat,
            comment: match self.comment {
                Some(c) => Some(c@),
                None => None,
            },
            availability: self.availability,
            chunks: chunks_view(self.chunks@),
        }
    }
}

impl CompletionResult {
    /// What the engine says of a proposal in brief, as the comment of the
    /// proposal: text that is empty is no comment.
    pub fn brief_comment(text: String) -> (comment: Option<String>)
        ensures
            comment == if text@.len() == 0 {
                None
            } else {
                Some(text)
            },
    {
        if text.as_str().is_empty() {
            None
        } else {
            Some(text)
        }
    }

    pub fn new(
        priority: usize,
        comment: Option<String>,
        availability: CXAvailabilityKind,
        chunks: Vec<CompletionChunk>,
    ) -> (r: CompletionResult)
        ensures
            r == (CompletionResult { priority, comment, availability, chunks }),
    {
        CompletionResult { priority, comment, availability, chunks }
    }

    /// The proposal as an editor takes it: the snippet, in which each
    /// placeholder is a field to fill in, then a tab, then the type of the
    /// result.
    pub fn to_yas(&self) -> (s: String)
        ensures
            s@ == yas_text(self@.chunks),
    {
        let mut snippet: Vec<char> = Vec::new();
        let mut return_value: Vec<char> = Vec::new();
        let open = chars_of("${");
        let close = chars_of("}");
        let ghost chunks = self@.chunks;
        let mut i: usize = 0;
        while i < self.chunks.len()
            invariant
                i <= self.chunks.len(),
                chunks == chunks_view(self.chunks@),
                open@ == "${"@,
                close@ == "}"@,
                snippet@ == snippet_text(chunks.take(i as int)),
                return_value@ == result_type_text(chunks.take(i as int)),
            decreases self.chunks.len() - i,
        {
            let chunk = &self.chunks[i];
            let text = chars_of(chunk.text.as_str());
            proof {
                assert(chunks.take(i + 1).drop_last() =~= chunks.take(i as int));
                assert(chunks.take(i + 1).last() == chunk@);
            }
            match chunk.kind {
                CXCompletionChunkKind::CXCompletionChunk_ResultType => {
                    append_chars(&mut return_value, text.as_slice());
                },
                CXCompletionChunkKind::CXCompletionChunk_Placeholder => {
                    let ghost before = snippet@;
                    append_chars(&mut snippet, open.as_slice());
                    append_chars(&mut snippet, text.as_slice());
                    append_chars(&mut snippet, close.as_slice());
                    assert(snippet@ =~= before + chunk@.snippet());
                },
                _ => {
                    append_chars(&mut snippet, text.as_slice());
                },
            }
            assert(snippet@ =~= snippet_text(chunks.take(i + 1)));
            assert(return_value@ =~= result_type_text(chunks.take(i + 1)));
            i += 1;
        }
        assert(chunks.take(self.chunks.len() as int) =~= chunks);
        let mut result = snippet;
        result.push('\t');
        append_chars(&mut result, return_value.as_slice());
        assert(result@ =~= yas_text(chunks));
        string_of(result.as_slice())
    }

    /// The proposal printed whole: its parts, each as it is shown, one after
    /// the other.
    pub fn to_string(&self) -> (s: String)
        ensures
            s@ == shown_text(self@.chunks),
    {
        let mut out: Vec<char> = Vec::new();
        let ghost chunks = self@.chunks;
        let mut i: usize = 0;
        while i < self.chunks.len()
            invariant
                i <= self.chunks.len(),
                chunks == chunks_view(self.chunks@),
                out@ == shown_text(chunks.take(i as int)),
            decreases self.chunks.len() - i,
        {
            let shown = self.chunks[i].to_string();
            let shown = chars_of(shown.as_str());
            proof {
                assert(chunks.take(i + 1).drop_last() =~= chunks.take(i as int));
                assert(chunks.take(i + 1).last() == self.chunks@[i as int]@);
            }
            append_chars(&mut out, shown.as_slice());
            i += 1;
        }
        assert(chunks.take(self.chunks.len() as int) =~= chunks);
        string_of(out.as_slice())
    }
}

} // verus!
