//! What reading a log can fail with, and where.

use crate::text::{decimal_text, push_decimal};
use vstd::prelude::*;
use vstd::string::StringExecFns;

verus! {

/// The kind of a failure, with a sentence for a human reader.
#[derive(Debug, Clone)]
pub enum CabrilloErrorKind {
    /// The source of the lines failed, or a line was not valid UTF-8.
    IoError(String),
    /// A line, or the value of a tag, is not what the format asks for.
    ParseError(String),
    /// Any other failure.
    Other(String),
}

/// A `CabrilloErrorKind` as a mathematical value.
pub enum KindView {
    IoError(Seq<char>),
    ParseError(Seq<char>),
    Other(Seq<char>),
}

impl View for CabrilloErrorKind {
    type V = KindView;

    open spec fn view(&self) -> KindView {
        match *self {
            CabrilloErrorKind::IoError(s) => KindView::IoError(s@),
            CabrilloErrorKind::ParseError(s) => KindView::ParseError(s@),
            CabrilloErrorKind::Other(s) => KindView::Other(s@),
        }
    }
}

/// How a kind of failure reads.
pub open spec fn kind_text(kind: KindView) -> Seq<char> {
    match kind {
        KindView::IoError(s) => "I/O Error: "@ + s,
        KindView::ParseError(s) => "Parse Error: "@ + s,
        KindView::Other(s) => "Unknown Error: "@ + s,
    }
}

impl CabrilloErrorKind {
    /// A parse error with the sentence `detail`.
    pub fn parse_error(detail: &str) -> (kind: CabrilloErrorKind)
        ensures
            kind@ == KindView::ParseError(detail@),
    {
        CabrilloErrorKind::ParseError(String::from_str(detail))
    }

    /// The kind and its sentence as one text.
    pub fn to_string(&self) -> (text: String)
        ensures
            text@ == kind_text(self@),
    {
        match self {
            CabrilloErrorKind::IoError(s) => String::from_str("I/O Error: ").concat(s.as_str()),
            CabrilloErrorKind::ParseError(s) => String::from_str("Parse Error: ").concat(
                s.as_str(),
            ),
            CabrilloErrorKind::Other(s) => String::from_str("Unknown Error: ").concat(s.as_str()),
        }
    }
}

/// A failure with its place: the tag that was being read, empty if none was
/// made out yet, and the number of the line, the first line being line 0.
#[derive(Debug, Clone)]
pub struct CabrilloError {
    tag: String,
    line: usize,
    kind: CabrilloErrorKind,
}

/// A `CabrilloError` as a mathematical value.
pub struct ErrorView {
    pub tag: Seq<char>,
    pub line: nat,
    pub kind: KindView,
}

impl View for CabrilloError {
    type V = ErrorView;

    closed spec fn view(&self) -> ErrorView {
        ErrorView { tag: self.tag@, line: self.line as nat, kind: self.kind@ }
    }
}

/// How a failure reads.
pub open spec fn error_text(error: ErrorView) -> Seq<char> {
    kind_text(error.kind) + " in tag '"@ + error.tag + "' on line "@ + decimal_text(error.line)
}

impl CabrilloError {
    /// The failure of kind `kind` in tag `tag` on line `line`.
    pub fn new(tag: &str, line: usize, kind: CabrilloErrorKind) -> (error: CabrilloError)
        ensures
            error@ == (ErrorView { tag: tag@, line: line as nat, kind: kind@ }),
    {
        CabrilloError { tag: String::from_str(tag), line, kind }
    }

    /// The tag that was being read; empty if the line held none.
    pub fn tag(&self) -> (tag: &String)
        ensures
            tag@ == self@.tag,
    {
        &self.tag
    }

    /// The number of the line, counted from 0.
    pub fn line(&self) -> (line: usize)
        ensures
            line == self@.line,
    {
        self.line
    }

    /// The kind of the failure.
    pub fn kind(&self) -> (kind: &CabrilloErrorKind)
        ensures
            kind@ == self@.kind,
    {
        &self.kind
    }

    /// The failure and its place as one text.
    pub fn to_string(&self) -> (text: String)
        ensures
            text@ == error_text(self@),
    {
        let mut text = self.kind.to_string();
        text.append(" in tag '");
        text.append(self.tag.as_str());
        text.append("' on line ");
        push_decimal(&mut text, self.line as u64);
        text
    }
}

/// What reading a log gives.
pub type CabrilloResult<T> = Result<T, CabrilloError>;

} // verus!
