//! The errors of locating and loading a dotenv file: a malformed line, a
//! failed file-system operation, or an environment variable that could not
//! be read. Each may carry the path it arose at, and each renders as
//! `<path>: <detail>`, or as `<detail>` alone when it has no path.

use crate::text::{decimal, to_decimal};
use vstd::prelude::*;
use vstd::std_specs::convert::FromSpec;

verus! {

/// The kinds of operating-system failure that callers tell apart.
#[derive(Clone, Copy, Debug, PartialEq, Eq, Structural)]
pub enum OsErrorKind {
    /// The entity does not exist.
    NotFound,
    /// The operation lacked the permission to complete.
    PermissionDenied,
    /// Any other failure.
    Other,
}

/// A failure reported by the operating system: its kind and its message.
#[derive(Clone, Debug)]
pub struct OsError {
    pub kind: OsErrorKind,
    pub message: String,
}

/// The mathematical value of an [`OsError`].
pub struct OsErrorView {
    pub kind: OsErrorKind,
    pub message: Seq<char>,
}

impl View for OsError {
    type V = OsErrorView;

    open spec fn view(&self) -> OsErrorView {
        OsErrorView { kind: self.kind, message: self.message@ }
    }
}

impl OsError {
    pub fn new(kind: OsErrorKind, message: String) -> (r: Self)
        ensures
            r == (OsError { kind, message }),
    {
        OsError { kind, message }
    }
}

/// Why an environment variable could not be read.
#[derive(Clone, Copy, Debug, PartialEq, Eq, Structural)]
pub enum EnvVarErrorKind {
    /// The variable is not set.
    NotPresent,
    /// The variable is set, but its value is not valid Unicode.
    NotUnicode,
}

/// A failure to read one environment variable: its kind and its message.
#[derive(Clone, Debug)]
pub struct EnvVarError {
    pub kind: EnvVarErrorKind,
    pub message: String,
}

/// The mathematical value of an [`EnvVarError`].
pub struct EnvVarErrorView {
    pub kind: EnvVarErrorKind,
    pub message: Seq<char>,
}

impl View for EnvVarError {
    type V = EnvVarErrorView;

    open spec fn view(&self) -> EnvVarErrorView {
        EnvVarErrorView { kind: self.kind, message: self.message@ }
    }
}

impl EnvVarError {
    pub fn new(kind: EnvVarErrorKind, message: String) -> (r: Self)
        ensures
            r == (EnvVarError { kind, message }),
    {
        EnvVarError { kind, message }
    }
}

/// The deeper failure that an error wraps.
#[derive(Clone, Copy, Debug)]
pub enum Cause<'a> {
    Os(&'a OsError),
    EnvVar(&'a EnvVarError),
}

/// `detail`, preceded by the path and `": "` where there is a path.
pub open spec fn located(path: Option<Seq<char>>, detail: Seq<char>) -> Seq<char> {
    match path {
        Some(p) => p + ": "@ + detail,
        None => detail,
    }
}

/// Renders `detail` behind `path`, if there is one.
fn locate(path: &Option<String>, detail: &str) -> (text: String)
    ensures
        text@ == located(path.deep_view(), detail@),
{
    let mut text = String::new();
    if let Some(p) = path {
        text.append(p.as_str());
        text.append(": ");
    }
    text.append(detail);
    text
}

/// A malformed line: where it was read, its text, and the zero-based column
/// of the first invalid character within that text.
#[derive(Clone, Debug)]
pub struct ParseError {
    pub path: Option<String>,
    pub line: String,
    pub col: usize,
}

/// The mathematical value of a [`ParseError`].
pub struct ParseErrorView {
    pub path: Option<Seq<char>>,
    pub line: Seq<char>,
    pub col: nat,
}

impl ParseErrorView {
    /// `'<line>', error at column <col>`.
    pub open spec fn detail(self) -> Seq<char> {
        "'"@ + self.line + "', error at column "@ + decimal(self.col)
    }

    /// The error as text: the detail, behind the path if there is one.
    pub open spec fn display(self) -> Seq<char> {
        located(self.path, self.detail())
    }
}

impl View for ParseError {
    type V = ParseErrorView;

    open spec fn view(&self) -> ParseErrorView {
        ParseErrorView { path: self.path.deep_view(), line: self.line@, col: self.col as nat }
    }
}

impl ParseError {
    /// A malformed line from its parts, each kept as given.
    pub fn from_parts(path: Option<String>, line: String, col: usize) -> (r: Self)
        ensures
            r == (ParseError { path, line, col }),
    {
        ParseError { path, line, col }
    }

    /// A malformed line has no deeper cause, only a location.
    pub fn source(&self) -> (cause: Option<Cause<'_>>)
        ensures
            cause is None,
    {
        None
    }

    /// Renders the error as `<path>: '<line>', error at column <col>`,
    /// without the path and its colon where there is no path.
    pub fn to_string(&self) -> (text: String)
        ensures
            text@ == self@.display(),
    {
        let mut detail = "'".to_owned();
        detail.append(self.line.as_str());
        detail.append("', error at column ");
        detail.append(to_decimal(self.col).as_str());
        locate(&self.path, detail.as_str())
    }
}

/// A failed file-system operation: the path it was attempted on, if the
/// operation had one, and what the operating system reported.
#[derive(Debug)]
pub struct IoError {
    pub path: Option<String>,
    pub source: OsError,
}

/// The mathematical value of an [`IoError`].
pub struct IoErrorView {
    pub path: Option<Seq<char>>,
    pub source: OsErrorView,
}

impl IoErrorView {
    /// The error as text: the operating system's message, behind the path
    /// if there is one.
    pub open spec fn display(self) -> Seq<char> {
        located(self.path, self.source.message)
    }
}

impl View for IoError {
    type V = IoErrorView;

    open spec fn view(&self) -> IoErrorView {
        IoErrorView { path: self.path.deep_view(), source: self.source@ }
    }
}

impl IoError {
    /// For an operation with no path of its own, such as resolving the
    /// working directory.
    pub fn without_path(source: OsError) -> (r: Self)
        ensures
            r == (IoError { path: None, source }),
    {
        IoError { path: None, source }
    }

    /// A failed operation from its parts, each kept as given.
    pub fn from_parts(path: Option<String>, source: OsError) -> (r: Self)
        ensures
            r == (IoError { path, source }),
    {
        IoError { path, source }
    }

    /// The wrapped cause: the operating system's failure.
    pub fn source(&self) -> (cause: Option<Cause<'_>>)
        ensures
            cause == Some(Cause::Os(&self.source)),
    {
        Some(Cause::Os(&self.source))
    }

    /// Renders the error as `<path>: <message>`, without the path and its
    /// colon where there is no path.
    pub fn to_string(&self) -> (text: String)
        ensures
            text@ == self@.display(),
    {
        locate(&self.path, self.source.message.as_str())
    }
}

/// Any error of locating or loading a dotenv file.
#[derive(Debug)]
#[non_exhaustive]
pub enum Error {
    Parse(ParseError),
    Io(IoError),
    EnvVar(EnvVarError),
}

/// The mathematical value of an [`Error`].
pub enum ErrorView {
    Parse(ParseErrorView),
    Io(IoErrorView),
    EnvVar(EnvVarErrorView),
}

impl ErrorView {
    /// The path that the error carries; an environment variable has none.
    pub open spec fn path(self) -> Option<Seq<char>> {
        match self {
            ErrorView::Parse(parse) => parse.path,
            ErrorView::Io(io) => io.path,
            ErrorView::EnvVar(_) => None,
        }
    }

    /// Whether the error is a file-system failure of the kind "not found".
    pub open spec fn not_found(self) -> bool {
        self matches ErrorView::Io(io) && io.source.kind == OsErrorKind::NotFound
    }

    /// The error as text: that of the variant it holds.
    pub open spec fn display(self) -> Seq<char> {
        match self {
            ErrorView::Parse(parse) => parse.display(),
            ErrorView::Io(io) => io.display(),
            ErrorView::EnvVar(var) => var.message,
        }
    }
}

impl View for Error {
    type V = ErrorView;

    open spec fn view(&self) -> ErrorView {
        match self {
            Error::Parse(parse) => ErrorView::Parse(parse@),
            Error::Io(io) => ErrorView::Io(io@),
            Error::EnvVar(var) => ErrorView::EnvVar(var@),
        }
    }
}

impl From<ParseError> for Error {
    fn from(parse: ParseError) -> (r: Self) {
        Error::Parse(parse)
    }
}

impl vstd::std_specs::convert::FromSpecImpl<ParseError> for Error {
    open spec fn obeys_from_spec() -> bool {
        true
    }

    open spec fn from_spec(parse: ParseError) -> Self {
        Error::Parse(parse)
    }
}

impl From<IoError> for Error {
    fn from(io: IoError) -> (r: Self) {
        Error::Io(io)
    }
}

impl vstd::std_specs::convert::FromSpecImpl<IoError> for Error {
    open spec fn obeys_from_spec() -> bool {
        true
    }

    open spec fn from_spec(io: IoError) -> Self {
        Error::Io(io)
    }
}

impl From<EnvVarError> for Error {
    fn from(source: EnvVarError) -> (r: Self) {
        Error::EnvVar(source)
    }
}

impl vstd::std_specs::convert::FromSpecImpl<EnvVarError> for Error {
    open spec fn obeys_from_spec() -> bool {
        true
    }

    open spec fn from_spec(source: EnvVarError) -> Self {
        Error::EnvVar(source)
    }
}

impl Error {
    /// The path that the error carries, if any.
    pub fn path(&self) -> (path: Option<&str>)
        ensures
            path.deep_view() == self@.path(),
    {
        match self {
            Error::Parse(parse) => match &parse.path {
                Some(p) => Some(p.as_str()),
                None => None,
            },
            Error::Io(io) => match &io.path {
                Some(p) => Some(p.as_str()),
                None => None,
            },
            Error::EnvVar(_) => None,
        }
    }

    /// Whether the error is a failed operation of the kind "not found": the
    /// sign that no dotenv file exists, as opposed to any other failure.
    pub fn not_found(&self) -> (r: bool)
        ensures
            r == self@.not_found(),
    {
        match self {
            Error::Io(io) => io.source.kind == OsErrorKind::NotFound,
            _ => false,
        }
    }

    /// The wrapped cause: the operating system's failure, or the variable's;
    /// none for a malformed line.
    pub fn source(&self) -> (cause: Option<Cause<'_>>)
        ensures
            cause == match self {
                Error::Parse(_) => None,
                Error::Io(io) => Some(Cause::Os(&io.source)),
                Error::EnvVar(var) => Some(Cause::EnvVar(var)),
            },
    {
        match self {
            Error::Parse(_) => None,
            Error::Io(io) => Some(Cause::Os(&io.source)),
            Error::EnvVar(var) => Some(Cause::EnvVar(var)),
        }
    }

    /// Renders the error as the variant it holds renders; an unreadable
    /// environment variable renders as its message.
    pub fn to_string(&self) -> (text: String)
        ensures
            text@ == self@.display(),
    {
        match self {
            Error::Parse(parse) => parse.to_string(),
            Error::Io(io) => io.to_string(),
            Error::EnvVar(var) => var.message.clone(),
        }
    }
}

/// An error carries the path it was made with. Wrapped as an [`Error`], a
/// malformed line or a failed operation shows the path given when it was
/// built, and none where none was given; an unreadable environment variable
/// shows none.
pub proof fn lemma_path_is_the_attached_path(
    path: Option<String>,
    line: String,
    col: usize,
    source: OsError,
    var: EnvVarError,
)
    ensures
        Error::from_spec(ParseError { path, line, col })@.path() == path.deep_view(),
        Error::from_spec(IoError { path, source })@.path() == path.deep_view(),
        Error::from_spec(IoError { path: None, source })@.path() is None,
        Error::from_spec(var)@.path() is None,
{
}

/// With a path, an error reads as the path, a colon and a space, and the
/// detail: for a failed operation the operating system's message, for a
/// malformed line its text in single quotes and the column in decimal.
/// Without a path it reads as the detail alone.
pub proof fn lemma_display_is_path_then_detail(
    path: Seq<char>,
    line: Seq<char>,
    col: nat,
    source: OsErrorView,
)
    ensures
        ErrorView::Io(IoErrorView { path: Some(path), source }).display() == path + ": "@
            + source.message,
        ErrorView::Io(IoErrorView { path: None, source }).display() == source.message,
        ErrorView::Parse(ParseErrorView { path: Some(path), line, col }).display() == path
            + ": '"@ + line + "', error at column "@ + decimal(col),
        ErrorView::Parse(ParseErrorView { path: None, line, col }).display() == "'"@ + line
            + "', error at column "@ + decimal(col),
{
    reveal_strlit(": ");
    reveal_strlit("'");
    reveal_strlit(": '");
}

} // verus!
