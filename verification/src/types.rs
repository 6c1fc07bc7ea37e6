//! The kinds that the analysis engine counts by number: how a completion is
//! available, what a part of a completion is, how grave a diagnostic is, and
//! the options of a parse.

use vstd::prelude::*;

verus! {

/// How loading a compilation database ended.
#[allow(non_camel_case_types)]
#[derive(Debug, Clone, Copy, PartialEq, Eq, Structural)]
pub enum CXCompilationDatabase_Error {
    CXCompilationDatabase_NoError,
    CXCompilationDatabase_CanNotLoadDatabase,
}

impl CXCompilationDatabase_Error {
    /// The number that the engine gives this outcome.
    pub open spec fn number(self) -> nat {
        match self {
            CXCompilationDatabase_Error::CXCompilationDatabase_NoError => 0,
            CXCompilationDatabase_Error::CXCompilationDatabase_CanNotLoadDatabase => 1,
        }
    }

}

/// The options of a parse. Each is one bit of the number that the engine
/// takes.
#[allow(non_camel_case_types)]
#[derive(Debug, Clone, Copy, PartialEq, Eq, Structural)]
pub enum CXTranslationUnit_Flags {
    CXTranslationUnit_None,
    CXTranslationUnit_DetailedPreprocessingRecord,
    CXTranslationUnit_Incomplete,
    CXTranslationUnit_PrecompiledPreamble,
    CXTranslationUnit_CacheCompletionResults,
    CXTranslationUnit_ForSerialization,
    CXTranslationUnit_CXXChainedPCH,
    CXTranslationUnit_SkipFunctionBodies,
    CXTranslationUnit_IncludeBriefCommentsInCodeCompletion,
}

impl CXTranslationUnit_Flags {
    /// The bit of the option; no bit for the option that stands for none.
    pub open spec fn bits(self) -> u32 {
        match self {
            CXTranslationUnit_Flags::CXTranslationUnit_None => 0x00,
            CXTranslationUnit_Flags::CXTranslationUnit_DetailedPreprocessingRecord => 0x01,
            CXTranslationUnit_Flags::CXTranslationUnit_Incomplete => 0x02,
            CXTranslationUnit_Flags::CXTranslationUnit_PrecompiledPreamble => 0x04,
            CXTranslationUnit_Flags::CXTranslationUnit_CacheCompletionResults => 0x08,
            CXTranslationUnit_Flags::CXTranslationUnit_ForSerialization => 0x10,
            CXTranslationUnit_Flags::CXTranslationUnit_CXXChainedPCH => 0x20,
            CXTranslationUnit_Flags::CXTranslationUnit_SkipFunctionBodies => 0x40,
            CXTranslationUnit_Flags::CXTranslationUnit_IncludeBriefCommentsInCodeCompletion => 0x80,
        }
    }

    /// The bit of the option.
    pub fn to_bits(self) -> (r: u32)
        ensures
            r == self.bits(),
    {
        match self {
            CXTranslationUnit_Flags::CXTranslationUnit_None => 0x00,
            CXTranslationUnit_Flags::CXTranslationUnit_DetailedPreprocessingRecord => 0x01,
            CXTranslationUnit_Flags::CXTranslationUnit_Incomplete => 0x02,
            CXTranslationUnit_Flags::CXTranslationUnit_PrecompiledPreamble => 0x04,
            CXTranslationUnit_Flags::CXTranslationUnit_CacheCompletionResults => 0x08,
            CXTranslationUnit_Flags::CXTranslationUnit_ForSerialization => 0x10,
            CXTranslationUnit_Flags::CXTranslationUnit_CXXChainedPCH => 0x20,
            CXTranslationUnit_Flags::CXTranslationUnit_SkipFunctionBodies => 0x40,
            CXTranslationUnit_Flags::CXTranslationUnit_IncludeBriefCommentsInCodeCompletion => 0x80,
        }
    }
}

/// Whether a completion can be used where it is offered.
#[allow(non_camel_case_types)]
#[derive(Debug, Clone, Copy, PartialEq, Eq, Structural)]
pub enum CXAvailabilityKind {
    CXAvailability_Available,
    CXAvailability_Deprecated,
    CXAvailability_NotAvailable,
    CXAvailability_NotAccessible,
}

impl CXAvailabilityKind {
    /// The number of kinds.
    pub const COUNT: usize = 4;

    /// The number that the engine gives this kind.
    pub open spec fn number(self) -> nat {
        match self {
            CXAvailabilityKind::CXAvailability_Available => 0,
            CXAvailabilityKind::CXAvailability_Deprecated => 1,
            CXAvailabilityKind::CXAvailability_NotAvailable => 2,
            CXAvailabilityKind::CXAvailability_NotAccessible => 3,
        }
    }

    /// The number that the engine gives this kind.
    pub fn to_uint(&self) -> (v: usize)
        ensures
            v == self.number(),
    {
        match self {
            CXAvailabilityKind::CXAvailability_Available => 0,
            CXAvailabilityKind::CXAvailability_Deprecated => 1,
            CXAvailabilityKind::CXAvailability_NotAvailable => 2,
            CXAvailabilityKind::CXAvailability_NotAccessible => 3,
        }
    }

    /// The kind that the engine gives the number `v`, if it gives it any.
    pub fn from_uint(v: usize) -> (kind: Option<CXAvailabilityKind>)
        ensures
            match kind {
                Some(k) => k.number() == v,
                None => v >= CXAvailabilityKind::COUNT,
            },
    {
        if v == 0 {
            Some(CXAvailabilityKind::CXAvailability_Available)
        } else if v == 1 {
            Some(CXAvailabilityKind::CXAvailability_Deprecated)
        } else if v == 2 {
            Some(CXAvailabilityKind::CXAvailability_NotAvailable)
        } else if v == 3 {
            Some(CXAvailabilityKind::CXAvailability_NotAccessible)
        } else {
            None
        }
    }
}

/// What a part of a completion is.
#[allow(non_camel_case_types)]
#[derive(Debug, Clone, Copy, PartialEq, Eq, Structural)]
pub enum CXCompletionChunkKind {
    CXCompletionChunk_Optional,
    CXCompletionChunk_TypedText,
    CXCompletionChunk_Text,
    CXCompletionChunk_Placeholder,
    CXCompletionChunk_Informative,
    CXCompletionChunk_CurrentParameter,
    CXCompletionChunk_LeftParen,
    CXCompletionChunk_RightParen,
    CXCompletionChunk_LeftBracket,
    CXCompletionChunk_RightBracket,
    CXCompletionChunk_LeftBrace,
    CXCompletionChunk_RightBrace,
    CXCompletionChunk_LeftAngle,
    CXCompletionChunk_RightAngle,
    CXCompletionChunk_Comma,
    CXCompletionChunk_ResultType,
    CXCompletionChunk_Colon,
    CXCompletionChunk_SemiColon,
    CXCompletionChunk_Equal,
    CXCompletionChunk_HorizontalSpace,
    CXCompletionChunk_VerticalSpace,
}

impl CXCompletionChunkKind {
    /// The number of kinds.
    pub const COUNT: usize = 21;

    /// The number that the engine gives this kind.
    pub open spec fn number(self) -> nat {
        match self {
            CXCompletionChunkKind::CXCompletionChunk_Optional => 0,
            CXCompletionChunkKind::CXCompletionChunk_TypedText => 1,
            CXCompletionChunkKind::CXCompletionChunk_Text => 2,
            CXCompletionChunkKind::CXCompletionChunk_Placeholder => 3,
            CXCompletionChunkKind::CXCompletionChunk_Informative => 4,
            CXCompletionChunkKind::CXCompletionChunk_CurrentParameter => 5,
            CXCompletionChunkKind::CXCompletionChunk_LeftParen => 6,
            CXCompletionChunkKind::CXCompletionChunk_RightParen => 7,
            CXCompletionChunkKind::CXCompletionChunk_LeftBracket => 8,
            CXCompletionChunkKind::CXCompletionChunk_RightBracket => 9,
            CXCompletionChunkKind::CXCompletionChunk_LeftBrace => 10,
            CXCompletionChunkKind::CXCompletionChunk_RightBrace => 11,
            CXCompletionChunkKind::CXCompletionChunk_LeftAngle => 12,
            CXCompletionChunkKind::CXCompletionChunk_RightAngle => 13,
            CXCompletionChunkKind::CXCompletionChunk_Comma => 14,
            CXCompletionChunkKind::CXCompletionChunk_ResultType => 15,
            CXCompletionChunkKind::CXCompletionChunk_Colon => 16,
            CXCompletionChunkKind::CXCompletionChunk_SemiColon => 17,
            CXCompletionChunkKind::CXCompletionChunk_Equal => 18,
            CXCompletionChunkKind::CXCompletionChunk_HorizontalSpace => 19,
            CXCompletionChunkKind::CXCompletionChunk_VerticalSpace => 20,
        }
    }

    /// The number that the engine gives this kind.
    pub fn to_uint(&self) -> (v: usize)
        ensures
            v == self.number(),
    {
        match self {
            CXCompletionChunkKind::CXCompletionChunk_Optional => 0,
            CXCompletionChunkKind::CXCompletionChunk_TypedText => 1,
            CXCompletionChunkKind::CXCompletionChunk_Text => 2,
            CXCompletionChunkKind::CXCompletionChunk_Placeholder => 3,
            CXCompletionChunkKind::CXCompletionChunk_Informative => 4,
            CXCompletionChunkKind::CXCompletionChunk_CurrentParameter => 5,
            CXCompletionChunkKind::CXCompletionChunk_LeftParen => 6,
            CXCompletionChunkKind::CXCompletionChunk_RightParen => 7,
            CXCompletionChunkKind::CXCompletionChunk_LeftBracket => 8,
            CXCompletionChunkKind::CXCompletionChunk_RightBracket => 9,
            CXCompletionChunkKind::CXCompletionChunk_LeftBrace => 10,
            CXCompletionChunkKind::CXCompletionChunk_RightBrace => 11,
            CXCompletionChunkKind::CXCompletionChunk_LeftAngle => 12,
            CXCompletionChunkKind::CXCompletionChunk_RightAngle => 13,
            CXCompletionChunkKind::CXCompletionChunk_Comma => 14,
            CXCompletionChunkKind::CXCompletionChunk_ResultType => 15,
            CXCompletionChunkKind::CXCompletionChunk_Colon => 16,
            CXCompletionChunkKind::CXCompletionChunk_SemiColon => 17,
            CXCompletionChunkKind::CXCompletionChunk_Equal => 18,
            CXCompletionChunkKind::CXCompletionChunk_HorizontalSpace => 19,
            CXCompletionChunkKind::CXCompletionChunk_VerticalSpace => 20,
        }
    }

    /// The kind that the engine gives the number `v`, if it gives it any.
    pub fn from_uint(v: usize) -> (kind: Option<CXCompletionChunkKind>)
        ensures
            match kind {
                Some(k) => k.number() == v,
                None => v >= CXCompletionChunkKind::COUNT,
            },
    {
        match v {
            0 => Some(CXCompletionChunkKind::CXCompletionChunk_Optional),
            1 => Some(CXCompletionChunkKind::CXCompletionChunk_TypedText),
            2 => Some(CXCompletionChunkKind::CXCompletionChunk_Text),
            3 => Some(CXCompletionChunkKind::CXCompletionChunk_Placeholder),
            4 => Some(CXCompletionChunkKind::CXCompletionChunk_Informative),
            5 => Some(CXCompletionChunkKind::CXCompletionChunk_CurrentParameter),
            6 => Some(CXCompletionChunkKind::CXCompletionChunk_LeftParen),
            7 => Some(CXCompletionChunkKind::CXCompletionChunk_RightParen),
            8 => Some(CXCompletionChunkKind::CXCompletionChunk_LeftBracket),
            9 => Some(CXCompletionChunkKind::CXCompletionChunk_RightBracket),
            10 => Some(CXCompletionChunkKind::CXCompletionChunk_LeftBrace),
            11 => Some(CXCompletionChunkKind::CXCompletionChunk_RightBrace),
            12 => Some(CXCompletionChunkKind::CXCompletionChunk_LeftAngle),
            13 => Some(CXCompletionChunkKind::CXCompletionChunk_RightAngle),
            14 => Some(CXCompletionChunkKind::CXCompletionChunk_Comma),
            15 => Some(CXCompletionChunkKind::CXCompletionChunk_ResultType),
            16 => Some(CXCompletionChunkKind::CXCompletionChunk_Colon),
            17 => Some(CXCompletionChunkKind::CXCompletionChunk_SemiColon),
            18 => Some(CXCompletionChunkKind::CXCompletionChunk_Equal),
            19 => Some(CXCompletionChunkKind::CXCompletionChunk_HorizontalSpace),
            20 => Some(CXCompletionChunkKind::CXCompletionChunk_VerticalSpace),
            _ => None,
        }
    }
}

/// How grave a diagnostic is.
#[allow(non_camel_case_types)]
#[derive(Debug, Clone, Copy, PartialEq, Eq, Structural)]
pub enum CXDiagnosticSeverity {
    CXDiagnostic_Ignored,
    CXDiagnostic_Note,
    CXDiagnostic_Remark,
    CXDiagnostic_Warning,
    CXDiagnostic_Error,
    CXDiagnostic_Fatal,
}

impl CXDiagnosticSeverity {
    /// The number of kinds.
    pub const COUNT: usize = 6;

    /// The number that the engine gives this kind.
    pub open spec fn number(self) -> nat {
        match self {
            CXDiagnosticSeverity::CXDiagnostic_Ignored => 0,
            CXDiagnosticSeverity::CXDiagnostic_Note => 1,
            CXDiagnosticSeverity::CXDiagnostic_Remark => 2,
            CXDiagnosticSeverity::CXDiagnostic_Warning => 3,
            CXDiagnosticSeverity::CXDiagnostic_Error => 4,
            CXDiagnosticSeverity::CXDiagnostic_Fatal => 5,
        }
    }

    /// The number that the engine gives this kind.
    pub fn to_uint(&self) -> (v: usize)
        ensures
            v == self.number(),
    {
        match self {
            CXDiagnosticSeverity::CXDiagnostic_Ignored => 0,
            CXDiagnosticSeverity::CXDiagnostic_Note => 1,
            CXDiagnosticSeverity::CXDiagnostic_Remark => 2,
            CXDiagnosticSeverity::CXDiagnostic_Warning => 3,
            CXDiagnosticSeverity::CXDiagnostic_Error => 4,
            CXDiagnosticSeverity::CXDiagnostic_Fatal => 5,
        }
    }

    /// The kind that the engine gives the number `v`, if it gives it any.
    pub fn from_uint(v: usize) -> (kind: Option<CXDiagnosticSeverity>)
        ensures
            match kind {
                Some(k) => k.number() == v,
                None => v >= CXDiagnosticSeverity::COUNT,
            },
    {
        match v {
            0 => Some(CXDiagnosticSeverity::CXDiagnostic_Ignored),
            1 => Some(CXDiagnosticSeverity::CXDiagnostic_Note),
            2 => Some(CXDiagnosticSeverity::CXDiagnostic_Remark),
            3 => Some(CXDiagnosticSeverity::CXDiagnostic_Warning),
            4 => Some(CXDiagnosticSeverity::CXDiagnostic_Error),
            5 => Some(CXDiagnosticSeverity::CXDiagnostic_Fatal),
            _ => None,
        }
    }
}

} // verus!
