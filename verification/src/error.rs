//! The error type shared by every fallible operation of the library.

use vstd::prelude::*;
use vstd::std_specs::convert::FromSpecImpl;
use vstd::string::*;

verus! {

/// Where a failure came from.
#[derive(Debug, Clone, Copy, PartialEq, Eq, Structural)]
pub enum ErrorSource {
    /// Reading a file or its metadata.
    Io,
    /// The state store.
    Redb,
    /// The search engine.
    Tantivy,
}

impl ErrorSource {
    /// The tag under which the source is shown.
    pub open spec fn label(self) -> Seq<char> {
        match self {
            ErrorSource::Io => "io"@,
            ErrorSource::Redb => "redb"@,
            ErrorSource::Tantivy => "tantivy"@,
        }
    }

    /// The tag as text: `io`, `redb` or `tantivy`.
    pub fn to_string(&self) -> (r: String)
        ensures
            r@ == self.label(),
    {
        match self {
            ErrorSource::Io => String::from_str("io"),
            ErrorSource::Redb => String::from_str("redb"),
            ErrorSource::Tantivy => String::from_str("tantivy"),
        }
    }
}

/// A failure: its origin and a message for the operator. Callers tell
/// failures apart by origin only.
#[derive(Debug)]
pub struct Error {
    source: ErrorSource,
    message: String,
}

impl Error {
    /// The origin of the failure.
    pub closed spec fn spec_source(&self) -> ErrorSource {
        self.source
    }

    /// The message of the failure.
    pub closed spec fn spec_message(&self) -> Seq<char> {
        self.message@
    }

    /// The message of the failure as the string that holds it.
    pub closed spec fn spec_text(&self) -> String {
        self.message
    }

    /// What `to_string` renders: origin tag and message on one line.
    pub open spec fn rendered(&self) -> Seq<char> {
        "Source: "@ + self.spec_source().label() + ", Message: "@ + self.spec_message()
    }

    /// A failure of the given origin.
    pub fn new(source: ErrorSource, message: String) -> (r: Error)
        ensures
            r.spec_source() == source,
            r.spec_message() == message@,
    {
        Error { source, message }
    }

    /// A failure to read a file or its metadata.
    pub fn io(message: String) -> (r: Error)
        ensures
            r.spec_source() == ErrorSource::Io,
            r.spec_message() == message@,
    {
        Error { source: ErrorSource::Io, message }
    }

    #[verifier::when_used_as_spec(spec_source)]
    pub fn source(&self) -> (r: ErrorSource)
        ensures
            r == self.spec_source(),
    {
        self.source
    }

    pub fn message(&self) -> (r: &str)
        ensures
            r@ == self.spec_message(),
    {
        self.message.as_str()
    }

    /// The failure on one line: `Source: <tag>, Message: <message>`.
    pub fn to_string(&self) -> (r: String)
        ensures
            r@ == self.rendered(),
    {
        let mut out = String::from_str("Source: ");
        let tag = self.source.to_string();
        out.append(tag.as_str());
        out.append(", Message: ");
        out.append(self.message.as_str());
        out
    }
}

impl From<redb::DatabaseError> for Error {
    /// A failure to open the state store. The message is the text that the failure shows.
    fn from(value: redb::DatabaseError) -> (error: Error)
        ensures
            error.spec_source() == ErrorSource::Redb,
            to_string_from_display_ensures(&value, error.spec_text()),
    {
        Error { source: ErrorSource::Redb, message: value.to_string() }
    }
}

impl FromSpecImpl<redb::DatabaseError> for Error {
    /// The text that a failure shows is not fixed as a function of the
    /// failure, so the conversion is stated on `from` itself.
    open spec fn obeys_from_spec() -> bool {
        false
    }

    open spec fn from_spec(value: redb::DatabaseError) -> Error {
        choose|error: Error|
            error.spec_source() == ErrorSource::Redb && to_string_from_display_ensures(
                &value,
                error.spec_text(),
            )
    }
}

impl From<redb::TransactionError> for Error {
    /// A failure to begin a transaction of the state store. The message is the text
    /// that the failure shows.
    fn from(value: redb::TransactionError) -> (error: Error)
        ensures
            error.spec_source() == ErrorSource::Redb,
            to_string_from_display_ensures(&value, error.spec_text()),
    {
        Error { source: ErrorSource::Redb, message: value.to_string() }
    }
}

impl FromSpecImpl<redb::TransactionError> for Error {
    /// The text that a failure shows is not fixed as a function of the
    /// failure, so the conversion is stated on `from` itself.
    open spec fn obeys_from_spec() -> bool {
        false
    }

    open spec fn from_spec(value: redb::TransactionError) -> Error {
        choose|error: Error|
            error.spec_source() == ErrorSource::Redb && to_string_from_display_ensures(
                &value,
                error.spec_text(),
            )
    }
}

impl From<redb::TableError> for Error {
    /// A failure to open or use a table of the state store. The message is the text
    /// that the failure shows.
    fn from(value: redb::TableError) -> (error: Error)
        ensures
            error.spec_source() == ErrorSource::Redb,
            to_string_from_display_ensures(&value, error.spec_text()),
    {
        Error { source: ErrorSource::Redb, message: value.to_string() }
    }
}

impl FromSpecImpl<redb::TableError> for Error {
    /// The text that a failure shows is not fixed as a function of the
    /// failure, so the conversion is stated on `from` itself.
    open spec fn obeys_from_spec() -> bool {
        false
    }

    open spec fn from_spec(value: redb::TableError) -> Error {
        choose|error: Error|
            error.spec_source() == ErrorSource::Redb && to_string_from_display_ensures(
                &value,
                error.spec_text(),
            )
    }
}

impl From<redb::StorageError> for Error {
    /// A failure of the storage under the state store. The message is the text
    /// that the failure shows.
    fn from(value: redb::StorageError) -> (error: Error)
        ensures
            error.spec_source() == ErrorSource::Redb,
            to_string_from_display_ensures(&value, error.spec_text()),
    {
        Error { source: ErrorSource::Redb, message: value.to_string() }
    }
}

impl FromSpecImpl<redb::StorageError> for Error {
    /// The text that a failure shows is not fixed as a function of the
    /// failure, so the conversion is stated on `from` itself.
    open spec fn obeys_from_spec() -> bool {
        false
    }

    open spec fn from_spec(value: redb::StorageError) -> Error {
        choose|error: Error|
            error.spec_source() == ErrorSource::Redb && to_string_from_display_ensures(
                &value,
                error.spec_text(),
            )
    }
}

impl From<redb::CommitError> for Error {
    /// A failure to commit a transaction of the state store. The message is the text
    /// that the failure shows.
    fn from(value: redb::CommitError) -> (error: Error)
        ensures
            error.spec_source() == ErrorSource::Redb,
            to_string_from_display_ensures(&value, error.spec_text()),
    {
        Error { source: ErrorSource::Redb, message: value.to_string() }
    }
}

impl FromSpecImpl<redb::CommitError> for Error {
    /// The text that a failure shows is not fixed as a function of the
    /// failure, so the conversion is stated on `from` itself.
    open spec fn obeys_from_spec() -> bool {
        false
    }

    open spec fn from_spec(value: redb::CommitError) -> Error {
        choose|error: Error|
            error.spec_source() == ErrorSource::Redb && to_string_from_display_ensures(
                &value,
                error.spec_text(),
            )
    }
}

impl From<tantivy::TantivyError> for Error {
    /// A failure of the search engine. The message is the text that the failure shows.
    fn from(value: tantivy::TantivyError) -> (error: Error)
        ensures
            error.spec_source() == ErrorSource::Tantivy,
            to_string_from_display_ensures(&value, error.spec_text()),
    {
        Error { source: ErrorSource::Tantivy, message: value.to_string() }
    }
}

impl FromSpecImpl<tantivy::TantivyError> for Error {
    /// The text that a failure shows is not fixed as a function of the
    /// failure, so the conversion is stated on `from` itself.
    open spec fn obeys_from_spec() -> bool {
        false
    }

    open spec fn from_spec(value: tantivy::TantivyError) -> Error {
        choose|error: Error|
            error.spec_source() == ErrorSource::Tantivy && to_string_from_display_ensures(
                &value,
                error.spec_text(),
            )
    }
}

impl From<tantivy::query::QueryParserError> for Error {
    /// A query that the search engine cannot parse. The message is the text
    /// that the failure shows.
    fn from(value: tantivy::query::QueryParserError) -> (error: Error)
        ensures
            error.spec_source() == ErrorSource::Tantivy,
            to_string_from_display_ensures(&value, error.spec_text()),
    {
        Error { source: ErrorSource::Tantivy, message: value.to_string() }
    }
}

impl FromSpecImpl<tantivy::query::QueryParserError> for Error {
    /// The text that a failure shows is not fixed as a function of the
    /// failure, so the conversion is stated on `from` itself.
    open spec fn obeys_from_spec() -> bool {
        false
    }

    open spec fn from_spec(value: tantivy::query::QueryParserError) -> Error {
        choose|error: Error|
            error.spec_source() == ErrorSource::Tantivy && to_string_from_display_ensures(
                &value,
                error.spec_text(),
            )
    }
}

impl From<tantivy::directory::error::OpenDirectoryError> for Error {
    /// A failure to open the directory of the index. The message is the text
    /// that the failure shows.
    fn from(value: tantivy::directory::error::OpenDirectoryError) -> (error: Error)
        ensures
            error.spec_source() == ErrorSource::Tantivy,
            to_string_from_display_ensures(&value, error.spec_text()),
    {
        Error { source: ErrorSource::Tantivy, message: value.to_string() }
    }
}

impl FromSpecImpl<tantivy::directory::error::OpenDirectoryError> for Error {
    /// The text that a failure shows is not fixed as a function of the
    /// failure, so the conversion is stated on `from` itself.
    open spec fn obeys_from_spec() -> bool {
        false
    }

    open spec fn from_spec(value: tantivy::directory::error::OpenDirectoryError) -> Error {
        choose|error: Error|
            error.spec_source() == ErrorSource::Tantivy && to_string_from_display_ensures(
                &value,
                error.spec_text(),
            )
    }
}

} // verus!
