use vstd::prelude::*;

verus! {

/// What can go wrong while handling reviews.
#[derive(Clone, Copy, Debug, PartialEq, Eq, Structural)]
pub enum Error {
    /// A stored collection could not be opened or written.
    FileAccess,
    /// A stored collection holds bytes that are not what was expected.
    FileContent,
    /// Any other input/output failure.
    GenericIO,
    /// The submission repeats an existing review or changes nothing.
    DuplicateReview,
    /// A document could not be parsed as JSON.
    Json,
}

/// The outcome of an operation that may fail with an `Error`.
pub type Result<T> = std::result::Result<T, Error>;

/// The kinds of input/output failure that the error handling tells apart.
#[derive(Clone, Copy, Debug, PartialEq, Eq, Structural)]
pub enum IoKind {
    NotFound,
    PermissionDenied,
    BrokenPipe,
    InvalidInput,
    InvalidData,
    UnexpectedEof,
    Other,
}

/// The classes of JSON failure.
#[derive(Clone, Copy, Debug, PartialEq, Eq, Structural)]
pub enum JsonCategory {
    /// Reading or writing the underlying bytes failed.
    Io,
    /// The input is not syntactically valid JSON.
    Syntax,
    /// The input is valid JSON of the wrong shape.
    Data,
    /// The input ended early.
    Eof,
}

/// The error that an input/output failure of kind `k` stands for.
pub open spec fn error_of_io(k: IoKind) -> Error {
    match k {
        IoKind::NotFound | IoKind::PermissionDenied | IoKind::BrokenPipe => Error::FileAccess,
        IoKind::InvalidInput | IoKind::InvalidData | IoKind::UnexpectedEof => Error::FileContent,
        IoKind::Other => Error::GenericIO,
    }
}

/// The error that a JSON failure of class `c` stands for.
pub open spec fn error_of_json(c: JsonCategory) -> Error {
    match c {
        JsonCategory::Io => Error::FileAccess,
        JsonCategory::Syntax | JsonCategory::Data | JsonCategory::Eof => Error::Json,
    }
}

impl From<IoKind> for Error {
    fn from(k: IoKind) -> (r: Error) {
        match k {
            IoKind::NotFound | IoKind::PermissionDenied | IoKind::BrokenPipe => Error::FileAccess,
            IoKind::InvalidInput | IoKind::InvalidData | IoKind::UnexpectedEof => Error::FileContent,
            IoKind::Other => Error::GenericIO,
        }
    }
}

impl vstd::std_specs::convert::FromSpecImpl<IoKind> for Error {
    open spec fn obeys_from_spec() -> bool {
        true
    }

    open spec fn from_spec(k: IoKind) -> Error {
        error_of_io(k)
    }
}

impl From<JsonCategory> for Error {
    fn from(c: JsonCategory) -> (r: Error) {
        match c {
            JsonCategory::Io => Error::FileAccess,
            JsonCategory::Syntax | JsonCategory::Data | JsonCategory::Eof => Error::Json,
        }
    }
}

impl vstd::std_specs::convert::FromSpecImpl<JsonCategory> for Error {
    open spec fn obeys_from_spec() -> bool {
        true
    }

    open spec fn from_spec(c: JsonCategory) -> Error {
        error_of_json(c)
    }
}

/// The short message shown for each error.
pub open spec fn message_of(e: Error) -> Seq<char> {
    match e {
        Error::FileAccess => "Couldn't read file."@,
        Error::FileContent => "Couldn't parse file content."@,
        Error::GenericIO => "There was an IO error."@,
        Error::DuplicateReview => "This review already exists."@,
        Error::Json => "Could't parse JSON."@,
    }
}

impl Error {
    /// The short message shown for this error.
    pub fn message(&self) -> (r: &'static str)
        ensures
            r@ == message_of(*self),
    {
        match self {
            Error::FileAccess => "Couldn't read file.",
            Error::FileContent => "Couldn't parse file content.",
            Error::GenericIO => "There was an IO error.",
            Error::DuplicateReview => "This review already exists.",
            Error::Json => "Could't parse JSON.",
        }
    }

    /// Whether a listing may recover from this error by starting the
    /// collection afresh, empty: only when it could not be opened.
    pub fn recoverable_by_init(&self) -> (r: bool)
        ensures
            r == (*self == Error::FileAccess),
    {
        match self {
            Error::FileAccess => true,
            _ => false,
        }
    }
}

} // verus!
