//! The metadata document of a migration, and typed lookup in it.
//!
//! The document is decoded by the `toml` crate and kept as that crate's
//! value. Verus sees nothing inside such a value, so the contracts speak of
//! what it holds through `document_of`, which describes a value as a
//! [`Document`]. What the `toml` crate does is called, not proved: each call
//! stands in a function of its own, below, whose comment says what is
//! believed of it.

use crate::errors::MigrationError;
use vstd::prelude::*;

verus! {

/// `toml::Value`, which Verus carries as an opaque value.
#[verifier::external_type_specification]
#[verifier::external_body]
pub struct ExTomlValue(toml::Value);

/// `toml::de::Error`, which Verus carries as an opaque value.
#[verifier::external_type_specification]
#[verifier::external_body]
pub struct ExTomlError(toml::de::Error);

/// What a TOML value holds, as far as the contracts of this crate speak of
/// it. The variants are those of `toml::Value`.
pub enum Document {
    /// A string.
    Text(Seq<char>),
    /// An integer.
    Integer(i64),
    /// A float. No contract depends on which one.
    Float,
    /// A boolean.
    Boolean(bool),
    /// A date or a time, as the text that the `toml` crate writes for it.
    Datetime(Seq<char>),
    /// An array, element by element.
    Array(Seq<Document>),
    /// A table, key by key.
    Table(Map<Seq<char>, Document>),
}

/// What a `toml::Value` holds: the variant it is, and what is in it.
pub uninterp spec fn document_of(value: toml::Value) -> Document;

/// What `toml::from_slice` makes of `bytes`: the document that they are the
/// TOML text of, or the error that it reports where they are not UTF-8 or
/// not a TOML document.
pub uninterp spec fn parsed(bytes: Seq<u8>) -> Result<Document, toml::de::Error>;

/// What `document` holds under `key`: something only if `document` is a
/// table that has the key.
pub open spec fn entry_of(document: Document, key: Seq<char>) -> Option<Document> {
    match document {
        Document::Table(entries) => if entries.contains_key(key) {
            Some(entries[key])
        } else {
            None
        },
        _ => None,
    }
}

/// Calls `toml::from_slice` to decode a `toml::Value`. The contract gives
/// the outcome its name, `parsed`: a value that is decoded holds the
/// document that `parsed` gives for the bytes, and an error is the one that
/// `parsed` gives for them. (The decoder calls itself once for each level of
/// nesting in the text, so the stack bounds the nesting that it can take.)
#[verifier::external_body]
pub(crate) fn parse_document(bytes: &[u8]) -> (r: Result<toml::Value, toml::de::Error>)
    ensures
        match r {
            Ok(value) => parsed(bytes@) == Ok::<Document, toml::de::Error>(document_of(value)),
            Err(cause) => parsed(bytes@) == Err::<Document, toml::de::Error>(cause),
        },
{
    toml::from_slice::<toml::Value>(bytes)
}

/// Calls `toml::Value::get` with a string as the index. The contract claims
/// what that method documents: it gives the value under `key` if `value` is
/// a table that has the key, and nothing otherwise.
#[verifier::external_body]
pub(crate) fn entry<'a>(value: &'a toml::Value, key: &str) -> (r: Option<&'a toml::Value>)
    ensures
        match entry_of(document_of(*value), key@) {
            Some(document) => r matches Some(found) && document_of(*found) == document,
            None => r is None,
        },
{
    value.get(key)
}

/// Calls `toml::Value::try_into::<bool>` on a clone of `value`. The contract
/// claims that a boolean is read as itself, and that nothing else can be read
/// as a boolean.
#[verifier::external_body]
pub(crate) fn read_boolean(value: &toml::Value) -> (r: Result<bool, toml::de::Error>)
    ensures
        match document_of(*value) {
            Document::Boolean(b) => r == Ok::<bool, toml::de::Error>(b),
            _ => r is Err,
        },
{
    value.clone().try_into::<bool>()
}

/// Calls `toml::Value::try_into::<i64>` on a clone of `value`. The contract
/// claims that an integer is read as itself, and that nothing else can be
/// read as an integer.
#[verifier::external_body]
pub(crate) fn read_integer(value: &toml::Value) -> (r: Result<i64, toml::de::Error>)
    ensures
        match document_of(*value) {
            Document::Integer(i) => r == Ok::<i64, toml::de::Error>(i),
            _ => r is Err,
        },
{
    value.clone().try_into::<i64>()
}

/// Calls `toml::Value::try_into::<String>` on a clone of `value`. The
/// contract claims that a string is read as itself, a date or time as its
/// text, and that nothing else can be read as a string.
#[verifier::external_body]
pub(crate) fn read_text(value: &toml::Value) -> (r: Result<String, toml::de::Error>)
    ensures
        match document_of(*value) {
            Document::Text(text) => r matches Ok(s) && s@ == text,
            Document::Datetime(text) => r matches Ok(s) && s@ == text,
            _ => r is Err,
        },
{
    value.clone().try_into::<String>()
}

/// A type that a value of a metadata document can be asked for.
pub trait MetadataValue: Sized + View {
    /// What reading `document` as this type gives: the view of the value, or
    /// `None` where the document cannot be read as this type.
    spec fn decoded(document: Document) -> Option<Self::V>;

    /// Reads `value` as this type.
    fn decode(value: &toml::Value) -> (r: Result<Self, toml::de::Error>)
        ensures
            match r {
                Ok(read) => Self::decoded(document_of(*value)) == Some(read@),
                Err(_) => Self::decoded(document_of(*value)) is None,
            },
    ;
}

impl MetadataValue for bool {
    open spec fn decoded(document: Document) -> Option<bool> {
        match document {
            Document::Boolean(b) => Some(b),
            _ => None,
        }
    }

    fn decode(value: &toml::Value) -> (r: Result<bool, toml::de::Error>) {
        read_boolean(value)
    }
}

impl MetadataValue for i64 {
    open spec fn decoded(document: Document) -> Option<i64> {
        match document {
            Document::Integer(i) => Some(i),
            _ => None,
        }
    }

    fn decode(value: &toml::Value) -> (r: Result<i64, toml::de::Error>) {
        read_integer(value)
    }
}

impl MetadataValue for String {
    open spec fn decoded(document: Document) -> Option<Seq<char>> {
        match document {
            Document::Text(text) => Some(text),
            Document::Datetime(text) => Some(text),
            _ => None,
        }
    }

    fn decode(value: &toml::Value) -> (r: Result<String, toml::de::Error>) {
        read_text(value)
    }
}

/// What asking a document for the value under `key` as a `T` gives: nothing
/// where the key is absent, and otherwise the view of the value read, or
/// `None` in its place where the value cannot be read as a `T`.
pub open spec fn lookup<T: MetadataValue>(document: Document, key: Seq<char>) -> Option<
    Option<T::V>,
> {
    match entry_of(document, key) {
        Some(found) => Some(T::decoded(found)),
        None => None,
    }
}

/// Whether `r` answers a lookup whose outcome is `expected`: an absent key
/// with `None`, a value that cannot be read with `InvalidMetadata`, and a
/// value that can be read with that value.
pub open spec fn answers<T: MetadataValue>(
    r: Option<Result<T, MigrationError>>,
    expected: Option<Option<T::V>>,
) -> bool {
    match expected {
        None => r is None,
        Some(None) => r matches Some(Err(MigrationError::InvalidMetadata(_))),
        Some(Some(value)) => r matches Some(Ok(read)) && read@ == value,
    }
}

/// Metadata that goes with a migration. What it holds depends on the format
/// of the migration; for a directory of SQL scripts it is the document in
/// `metadata.toml`.
pub trait Metadata {
    /// The value under `key`, if there is one, read as a `T`.
    fn get<T: MetadataValue>(&self, key: &str) -> Option<Result<T, MigrationError>> where
        Self: Sized,
    ;
}

/// Metadata that holds nothing, for migrations that have none.
#[derive(Copy, Clone, Debug)]
pub struct DummyMetadata {}

impl Metadata for DummyMetadata {
    fn get<T: MetadataValue>(&self, _key: &str) -> (r: Option<Result<T, MigrationError>>)
        ensures
            r is None,
    {
        None
    }
}

/// The metadata document of a migration kept as SQL scripts.
pub struct TomlMetadata(toml::Value);

impl View for TomlMetadata {
    type V = Document;

    closed spec fn view(&self) -> Document {
        document_of(self.0)
    }
}

impl TomlMetadata {
    /// The value that the document holds under `key`, if it holds one.
    pub fn entry(&self, key: &str) -> (r: Option<&toml::Value>)
        ensures
            match entry_of(self@, key@) {
                Some(document) => r matches Some(found) && document_of(*found) == document,
                None => r is None,
            },
    {
        entry(&self.0, key)
    }

    /// Decodes the text of a metadata document. Text that is no document
    /// is invalid metadata, for the cause that the decoder reports.
    pub fn from_slice(bytes: &[u8]) -> (r: Result<TomlMetadata, MigrationError>)
        ensures
            match parsed(bytes@) {
                Ok(document) => r matches Ok(metadata) && metadata@ == document,
                Err(cause) => r == Err::<TomlMetadata, MigrationError>(
                    MigrationError::InvalidMetadata(cause),
                ),
            },
    {
        match parse_document(bytes) {
            Ok(value) => Ok(TomlMetadata(value)),
            Err(cause) => Err(MigrationError::InvalidMetadata(cause)),
        }
    }
}

/// The answer to a typed lookup, given what looking the key up and reading
/// the value gave: nothing for an absent key, the value where it could be
/// read, and invalid metadata, with the cause, where it could not.
pub fn typed_answer<T>(found: Option<Result<T, toml::de::Error>>) -> (r: Option<
    Result<T, MigrationError>,
>)
    ensures
        r == match found {
            None => None::<Result<T, MigrationError>>,
            Some(Ok(read)) => Some(Ok(read)),
            Some(Err(cause)) => Some(Err(MigrationError::InvalidMetadata(cause))),
        },
{
    match found {
        None => None,
        Some(Ok(read)) => Some(Ok(read)),
        Some(Err(cause)) => Some(Err(MigrationError::InvalidMetadata(cause))),
    }
}

/// Whether `cause` is an error with which reading as a `T` fails for a value
/// that holds `document`.
pub open spec fn fails_to_decode<T: MetadataValue>(
    document: Document,
    cause: toml::de::Error,
) -> bool {
    exists|value: &toml::Value|
        document_of(*value) == document && call_ensures(
            <T as MetadataValue>::decode,
            (value,),
            Err::<T, toml::de::Error>(cause),
        )
}

impl Metadata for TomlMetadata {
    /// The value under `key`, if the document holds one, read as a `T`. A
    /// value that cannot be read as a `T` is invalid metadata, and the cause
    /// is the error with which reading it failed.
    fn get<T: MetadataValue>(&self, key: &str) -> (r: Option<Result<T, MigrationError>>)
        ensures
            answers(r, lookup::<T>(self@, key@)),
            r matches Some(Err(MigrationError::InvalidMetadata(cause))) ==> entry_of(
                self@,
                key@,
            ) matches Some(document) && fails_to_decode::<T>(document, cause),
    {
        let found = match self.entry(key) {
            Some(value) => Some(T::decode(value)),
            None => None,
        };
        typed_answer(found)
    }
}

} // verus!
