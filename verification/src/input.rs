//! Input sources named by URI strings, and the errors of opening them.

use vstd::prelude::*;

verus! {

/// `std::io::Error`, held as the cause of a failure and never looked into.
#[verifier::external_type_specification]
#[verifier::external_body]
pub struct ExIoError(std::io::Error);

/// Where input comes from.
#[derive(Debug, Clone, Copy, PartialEq, Eq, Structural)]
pub enum InputSource {
    /// The live standard input.
    Stdin,
    /// A file, read from its start.
    File,
    /// A source without data: every read from it reports the end of the
    /// data. It keeps the place of a source that could not be opened.
    Empty,
}

/// Why a URI could not be opened.
#[derive(Debug, Clone, Copy, PartialEq, Eq, Structural)]
pub enum ErrorKind {
    /// The URI is the empty string.
    UriIsEmpty,
    /// The file that the URI names could not be opened.
    CannotOpenUri,
}

/// The failure to open one URI: its kind, the URI as it was given, and the
/// error of the operating system where there is one.
#[derive(Debug)]
pub struct Error<'a> {
    kind: ErrorKind,
    uri: &'a str,
    source: Option<std::io::Error>,
}

/// The source that a URI names: the standard input for `-`, a file at that
/// path for any other text, and nothing for the empty string.
pub open spec fn source_of_uri(uri: Seq<char>) -> Option<InputSource> {
    if uri.len() == 0 {
        None
    } else if uri.len() == 1 && uri[0] == '-' {
        Some(InputSource::Stdin)
    } else {
        Some(InputSource::File)
    }
}

impl<'a> Error<'a> {
    /// The kind of the failure.
    pub closed spec fn spec_kind(&self) -> ErrorKind {
        self.kind
    }

    /// The URI that could not be opened.
    pub closed spec fn spec_uri(&self) -> Seq<char> {
        self.uri@
    }

    /// The error of the operating system behind the failure.
    pub closed spec fn spec_source(&self) -> Option<std::io::Error> {
        self.source
    }

    /// The failure to open the file that `uri` names, with the error of the
    /// operating system as its cause.
    pub fn cannot_open_uri(uri: &'a str, cause: std::io::Error) -> (error: Error<'a>)
        ensures
            error.spec_kind() == ErrorKind::CannotOpenUri,
            error.spec_uri() == uri@,
            error.spec_source() == Some(cause),
    {
        Error { kind: ErrorKind::CannotOpenUri, uri, source: Some(cause) }
    }

    /// The kind of the failure.
    pub fn kind(&self) -> (kind: ErrorKind)
        ensures
            kind == self.spec_kind(),
    {
        self.kind
    }

    /// The URI that could not be opened.
    pub fn uri(&self) -> (uri: &'a str)
        ensures
            uri@ == self.spec_uri(),
    {
        self.uri
    }

    /// The error of the operating system behind the failure, if any.
    pub fn source(&self) -> (cause: Option<&std::io::Error>)
        ensures
            cause == match self.spec_source() {
                Some(e) => Some(&e),
                None => None,
            },
    {
        self.source.as_ref()
    }
}

impl InputSource {
    /// The source that `uri` names. The empty string names none and is
    /// refused; `-` names the standard input; any other text is the path of
    /// a file, which is yet to be opened.
    pub fn from_uri<'a>(uri: &'a str) -> (r: Result<InputSource, Error<'a>>)
        ensures
            match source_of_uri(uri@) {
                Some(source) => r == Ok::<InputSource, Error<'a>>(source),
                None => {
                    &&& r matches Err(error)
                    &&& error.spec_kind() == ErrorKind::UriIsEmpty
                    &&& error.spec_uri() == uri@
                    &&& error.spec_source() is None
                },
            },
    {
        if uri.is_empty() {
            return Err(Error { kind: ErrorKind::UriIsEmpty, uri, source: None });
        }
        if uri.unicode_len() == 1 && uri.get_char(0) == '-' {
            Ok(InputSource::Stdin)
        } else {
            Ok(InputSource::File)
        }
    }
}

} // verus!
