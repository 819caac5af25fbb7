use vstd::prelude::*;
use vstd::string::StringExecFns;

verus! {

/// Why a resolution ended without an entry point. Every kind is terminal.
#[derive(Clone, Copy, Debug, PartialEq, Eq, Structural)]
pub enum TetherErrorKind {
    SystemDirectoryUnavailable,
    PathBufferOverflow,
    LibraryLoadFailed,
    ExportNameEncodingFailed,
    ExportNotFound,
}

/// The stable integer code of each kind, as reported across the boundary.
/// A name that cannot be encoded shares its code with an overflowing path:
/// both are failures to build a buffer for the platform.
pub open spec fn kind_code(kind: TetherErrorKind) -> int {
    match kind {
        TetherErrorKind::SystemDirectoryUnavailable => -1,
        TetherErrorKind::PathBufferOverflow => -2,
        TetherErrorKind::LibraryLoadFailed => -3,
        TetherErrorKind::ExportNameEncodingFailed => -2,
        TetherErrorKind::ExportNotFound => -4,
    }
}

/// The decimal text of `kind_code(kind)`.
pub open spec fn kind_code_text(kind: TetherErrorKind) -> Seq<char> {
    match kind {
        TetherErrorKind::SystemDirectoryUnavailable => "-1"@,
        TetherErrorKind::PathBufferOverflow => "-2"@,
        TetherErrorKind::LibraryLoadFailed => "-3"@,
        TetherErrorKind::ExportNameEncodingFailed => "-2"@,
        TetherErrorKind::ExportNotFound => "-4"@,
    }
}

impl TetherErrorKind {
    pub fn code(&self) -> (r: i32)
        ensures
            r == kind_code(*self),
    {
        match self {
            TetherErrorKind::SystemDirectoryUnavailable => -1,
            TetherErrorKind::PathBufferOverflow => -2,
            TetherErrorKind::LibraryLoadFailed => -3,
            TetherErrorKind::ExportNameEncodingFailed => -2,
            TetherErrorKind::ExportNotFound => -4,
        }
    }

    pub fn code_text(&self) -> (r: &'static str)
        ensures
            r@ == kind_code_text(*self),
    {
        match self {
            TetherErrorKind::SystemDirectoryUnavailable => "-1",
            TetherErrorKind::PathBufferOverflow => "-2",
            TetherErrorKind::LibraryLoadFailed => "-3",
            TetherErrorKind::ExportNameEncodingFailed => "-2",
            TetherErrorKind::ExportNotFound => "-4",
        }
    }
}

/// A failed resolution: its kind and, where one was written, a detail
/// for the person who reads the report.
#[derive(Debug)]
pub struct TetherFailure {
    pub kind: TetherErrorKind,
    pub detail: Option<String>,
}

impl View for TetherFailure {
    type V = (TetherErrorKind, Option<Seq<char>>);

    open spec fn view(&self) -> (TetherErrorKind, Option<Seq<char>>) {
        (
            self.kind,
            match self.detail {
                Some(d) => Some(d@),
                None => None,
            },
        )
    }
}

/// The report of a failure: the detail followed by the code in
/// parentheses, or the code alone where there is no detail.
pub open spec fn report_text(f: (TetherErrorKind, Option<Seq<char>>)) -> Seq<char> {
    match f.1 {
        Some(d) => d + " ("@ + kind_code_text(f.0) + ")"@,
        None => kind_code_text(f.0),
    }
}

impl TetherFailure {
    pub fn message(&self) -> (r: String)
        ensures
            r@ == report_text(self@),
    {
        match &self.detail {
            Some(d) => {
                let mut text = String::from_str(d.as_str());
                text.append(" (");
                text.append(self.kind.code_text());
                text.append(")");
                text
            },
            None => String::from_str(self.kind.code_text()),
        }
    }
}

} // verus!
