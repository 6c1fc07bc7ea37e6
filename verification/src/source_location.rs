//! A place in a source file.

use crate::text::{chars_of, decimal, push_decimal, string_of};
use vstd::prelude::*;

verus! {

/// A place in a source file: the file, the line and the column, both counted
/// from 1, and the offset in bytes from the start of the file.
#[derive(Debug, PartialEq, Eq)]
pub struct SourceLocation {
    pub file: String,
    pub line: usize,
    pub column: usize,
    pub offset: usize,
}

/// A place as a mathematical value.
pub struct Place {
    pub file: Seq<char>,
    pub line: nat,
    pub column: nat,
    pub offset: nat,
}

impl View for SourceLocation {
    type V = Place;

    open spec fn view(&self) -> Place {
        Place {
            file: self.file@,
            line: self.line as nat,
            column: self.column as nat,
            offset: self.offset as nat,
        }
    }
}

impl Place {
    /// The place as an editor takes it: the file, the line and the column
    /// with a colon between them.
    pub open spec fn text(self) -> Seq<char> {
        self.file + seq![':'] + decimal(self.line) + seq![':'] + decimal(self.column)
    }
}

impl SourceLocation {
    /// The place written as an editor takes it.
    pub fn to_string(&self) -> (s: String)
        ensures
            s@ == self@.text(),
    {
        let mut out = chars_of(self.file.as_str());
        out.push(':');
        push_decimal(&mut out, self.line);
        out.push(':');
        push_decimal(&mut out, self.column);
        assert(out@ =~= self@.text());
        string_of(out.as_slice())
    }
}

impl Clone for SourceLocation {
    fn clone(&self) -> (r: Self)
        ensures
            r == *self,
    {
        SourceLocation {
            file: self.file.clone(),
            line: self.line,
            column: self.column,
            offset: self.offset,
        }
    }
}

} // verus!
