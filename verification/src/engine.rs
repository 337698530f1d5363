//! The search engine: a full-text index with one writer and many readers.
//!
//! The engine is `tantivy`. What a writer has staged since its last commit
//! or rollback is modelled as the sequence of operations it was given; what
//! a reader finds is the engine's own business and is left open.

use crate::error::{Error, ErrorSource};
use crate::fragments::TextToken;
use tantivy::schema::Value;
use tantivy::tokenizer::TokenStream;
use vstd::prelude::*;

verus! {

/// A schema of `tantivy`, seen through [`schema_fields`].
#[verifier::external_type_specification]
#[verifier::external_body]
pub struct ExSchema(tantivy::schema::Schema);

/// A directory of `tantivy` on the file system, carried as it is.
#[verifier::external_type_specification]
#[verifier::external_body]
pub struct ExMmapDirectory(tantivy::directory::MmapDirectory);

/// An index of `tantivy`, seen through [`index_fields`].
#[verifier::external_type_specification]
#[verifier::external_body]
pub struct ExIndex(tantivy::Index);

/// A reader of a `tantivy` index, carried as it is.
#[verifier::external_type_specification]
#[verifier::external_body]
pub struct ExIndexReader(tantivy::IndexReader);

/// A searcher of `tantivy`: the documents of an index at one moment.
#[verifier::external_type_specification]
#[verifier::external_body]
pub struct ExSearcher(tantivy::Searcher);

/// A query parser of `tantivy`, carried as it is.
#[verifier::external_type_specification]
#[verifier::external_body]
pub struct ExQueryParser(tantivy::query::QueryParser);

/// The address of a document in a `tantivy` searcher, carried as it is.
#[verifier::external_type_specification]
#[verifier::external_body]
pub struct ExDocAddress(tantivy::DocAddress);

/// A document of `tantivy`, read through [`document_text`].
#[verifier::external_type_specification]
#[verifier::external_body]
pub struct ExTantivyDocument(tantivy::TantivyDocument);

/// A text analyser of `tantivy`, carried as it is.
#[verifier::external_type_specification]
#[verifier::external_body]
pub struct ExTextAnalyzer(tantivy::tokenizer::TextAnalyzer);

/// What `tantivy` gives when an operation fails; only its text is used.
#[verifier::external_type_specification]
#[verifier::external_body]
pub struct ExTantivyError(tantivy::TantivyError);

/// What `tantivy` gives when a query does not parse; only its text is used.
#[verifier::external_type_specification]
#[verifier::external_body]
pub struct ExQueryParserError(tantivy::query::QueryParserError);

/// What `tantivy` gives when a directory cannot be opened; only its text is
/// used.
#[verifier::external_type_specification]
#[verifier::external_body]
pub struct ExOpenDirectoryError(tantivy::directory::error::OpenDirectoryError);

/// The engine's writer for documents of its default kind. The writer's own
/// type has a parameter that is bound by a trait of the engine and cannot
/// stand in a contract, so it is held here and reached through the functions
/// below.
#[verifier::external_body]
pub struct IndexSession {
    writer: tantivy::IndexWriter<tantivy::TantivyDocument>,
}

/// A parsed query: a boxed trait object of the engine, which cannot stand
/// in a contract either.
#[verifier::external_body]
pub struct ParsedQuery {
    query: Box<dyn tantivy::query::Query>,
}

/// An operation staged on the index.
pub enum IndexOp {
    /// A document is added that holds `path` in the field `path_field` and
    /// `content` in the field `content_field`.
    Insert { path_field: u32, path: Seq<char>, content_field: u32, content: Seq<char> },
    /// Every document that holds the term `path` in the field `field` is
    /// deleted.
    DeleteByPath { field: u32, path: Seq<char> },
    /// Every document is deleted.
    DeleteAll,
}

/// A field of a schema as the library reads it: its name, the tokenizer
/// that its text is indexed with, if it is indexed as text, and whether its
/// value is stored.
#[derive(Debug)]
pub struct FieldInfo {
    pub name: String,
    pub tokenizer: Option<String>,
    pub stored: bool,
}

/// The model of a [`FieldInfo`].
pub struct FieldSpec {
    pub name: Seq<char>,
    pub tokenizer: Option<Seq<char>>,
    pub stored: bool,
}

impl View for FieldInfo {
    type V = FieldSpec;

    open spec fn view(&self) -> FieldSpec {
        FieldSpec {
            name: self.name@,
            tokenizer: match self.tokenizer {
                Some(name) => Some(name@),
                None => None,
            },
            stored: self.stored,
        }
    }
}

/// The schema of two stored text fields: the first indexed as it stands,
/// through the tokenizer `raw`, the second analysed by the tokenizer
/// `default`.
pub open spec fn two_fields(exact_name: Seq<char>, text_name: Seq<char>) -> Seq<FieldSpec> {
    seq![
        FieldSpec { name: exact_name, tokenizer: Some("raw"@), stored: true },
        FieldSpec { name: text_name, tokenizer: Some("default"@), stored: true },
    ]
}

/// That a field is there and indexed as one exact term.
pub open spec fn is_exact_field(fields: Seq<FieldSpec>, field: u32) -> bool {
    field < fields.len() && fields[field as int].tokenizer == Some("raw"@)
}

/// The operations that a writer was given since its last commit or
/// rollback, oldest first.
pub uninterp spec fn staged_ops(session: IndexSession) -> Seq<IndexOp>;

/// The fields of a schema, in the order of their numbers.
pub uninterp spec fn schema_fields(schema: tantivy::schema::Schema) -> Seq<FieldSpec>;

/// The fields of the schema of an index.
pub uninterp spec fn index_fields(index: tantivy::Index) -> Seq<FieldSpec>;

/// The fields of the schema of the index that a writer writes to.
pub uninterp spec fn writer_fields(session: IndexSession) -> Seq<FieldSpec>;

/// The fields of the schema of the index that a reader reads.
pub uninterp spec fn reader_fields(reader: tantivy::IndexReader) -> Seq<FieldSpec>;

/// The fields of the schema of the index that a searcher searches.
pub uninterp spec fn searcher_fields(searcher: tantivy::Searcher) -> Seq<FieldSpec>;

/// That an address names a document among those that a searcher holds.
pub uninterp spec fn holds_document(
    searcher: tantivy::Searcher,
    address: tantivy::DocAddress,
) -> bool;

/// That a name can be a field's: the engine takes any name that is not
/// empty and does not begin with a hyphen.
pub open spec fn field_name_ok(name: Seq<char>) -> bool {
    name.len() > 0 && name[0] != '-'
}

/// `Schema::builder`, `SchemaBuilder::add_text_field` twice and
/// `SchemaBuilder::build`: a schema of two stored text fields, the first
/// with the engine's options `STRING | STORED`, indexed as one exact term
/// through the tokenizer `raw`, the second with `TEXT | STORED`, analysed by
/// the tokenizer `default`. The engine numbers fields in the order in which
/// they are added, from zero. Names on which `add_text_field` panics are
/// left out: an invalid one, and the same one twice.
#[verifier::external_body]
pub(crate) fn two_field_schema(exact_name: &str, text_name: &str) -> (r: (
    tantivy::schema::Schema,
    u32,
    u32,
))
    requires
        field_name_ok(exact_name@),
        field_name_ok(text_name@),
        exact_name@ != text_name@,
    ensures
        r.1 == 0,
        r.2 == 1,
        schema_fields(r.0) == two_fields(exact_name@, text_name@),
{
    let mut builder = tantivy::schema::Schema::builder();
    let exact =
        builder.add_text_field(exact_name, tantivy::schema::STRING | tantivy::schema::STORED);
    let text = builder.add_text_field(text_name, tantivy::schema::TEXT | tantivy::schema::STORED);
    (builder.build(), exact.field_id(), text.field_id())
}

/// `MmapDirectory::open`: fails where `dir` is missing or no directory.
#[verifier::external_body]
pub(crate) fn open_directory(dir: &str) -> Result<
    tantivy::directory::MmapDirectory,
    tantivy::directory::error::OpenDirectoryError,
> {
    tantivy::directory::MmapDirectory::open(dir)
}

/// `Index::open_or_create`: the index in the directory, created with the
/// schema where none is there, and refused where one is there with another
/// schema. An index that comes back has the schema that was given.
#[verifier::external_body]
pub(crate) fn open_or_create_index(
    directory: tantivy::directory::MmapDirectory,
    schema: tantivy::schema::Schema,
) -> (r: Result<tantivy::Index, tantivy::TantivyError>)
    ensures
        r matches Ok(index) ==> index_fields(index) == schema_fields(schema),
{
    tantivy::Index::open_or_create(directory, schema)
}

/// `Index::schema`, `Schema::fields` and the accessors of `FieldEntry`: the
/// field of the given number as the schema of the index has it, or nothing
/// where the schema has no such field. A field that is not text has no
/// tokenizer here.
#[verifier::external_body]
pub(crate) fn index_field(index: &tantivy::Index, field: u32) -> (r: Option<FieldInfo>)
    ensures
        match r {
            Some(info) => field < index_fields(*index).len() && info@ == index_fields(
                *index,
            )[field as int],
            None => field >= index_fields(*index).len(),
        },
{
    let schema = index.schema();
    let (_, entry) = schema.fields().nth(field as usize)?;
    let tokenizer = match entry.field_type() {
        tantivy::schema::FieldType::Str(options) => {
            options.get_indexing_options().map(|indexing| indexing.tokenizer().to_string())
        },
        _ => None,
    };
    Some(FieldInfo { name: entry.name().to_string(), tokenizer, stored: entry.is_stored() })
}

/// `IndexWriter::index`: the index that a writer writes to.
#[verifier::external_body]
pub(crate) fn writer_index(session: &IndexSession) -> (index: &tantivy::Index)
    ensures
        index_fields(*index) == writer_fields(*session),
{
    session.writer.index()
}

/// `Index::writer` with the given memory budget. A writer starts with
/// nothing staged. The engine refuses a second writer on one directory.
#[verifier::external_body]
pub(crate) fn open_writer(index: &tantivy::Index, memory_budget: usize) -> (r: Result<
    IndexSession,
    tantivy::TantivyError,
>)
    ensures
        r matches Ok(session) ==> staged_ops(session) == Seq::<IndexOp>::empty()
            && writer_fields(session) == index_fields(*index),
{
    Ok(IndexSession { writer: index.writer(memory_budget)? })
}

/// `Index::reader_builder`, `IndexReaderBuilder::reload_policy` and
/// `IndexReaderBuilder::try_into`: a reader of the index that reloads
/// shortly after each commit.
#[verifier::external_body]
pub(crate) fn open_reader(index: &tantivy::Index) -> (r: Result<
    tantivy::IndexReader,
    tantivy::TantivyError,
>)
    ensures
        r matches Ok(reader) ==> reader_fields(reader) == index_fields(*index),
{
    index.reader_builder().reload_policy(tantivy::ReloadPolicy::OnCommitWithDelay).try_into()
}

/// `TantivyDocument::new`, `TantivyDocument::add_text` twice and
/// `IndexWriter::add_document`: stages a document of the two fields. Field
/// numbers above 65535 are left out, on which `add_text` panics, and those
/// that the writer's schema does not have.
#[verifier::external_body]
pub(crate) fn stage_document(
    session: &mut IndexSession,
    path_field: u32,
    content_field: u32,
    path: &str,
    content: &str,
) -> (r: Result<(), tantivy::TantivyError>)
    requires
        path_field <= 0xFFFF,
        content_field <= 0xFFFF,
        path_field < writer_fields(*old(session)).len(),
        content_field < writer_fields(*old(session)).len(),
    ensures
        writer_fields(*final(session)) == writer_fields(*old(session)),
        r is Ok ==> staged_ops(*final(session)) == staged_ops(*old(session)).push(
            IndexOp::Insert { path_field, path: path@, content_field, content: content@ },
        ),
{
    let mut document = tantivy::TantivyDocument::new();
    document.add_text(tantivy::schema::Field::from_field_id(path_field), path);
    document.add_text(tantivy::schema::Field::from_field_id(content_field), content);
    session.writer.add_document(document)?;
    Ok(())
}

/// `Term::from_field_text` and `IndexWriter::delete_term`: stages the
/// deletion of every document that holds the term `path` in the field. The
/// field has to be one of the writer's schema, on which the engine would
/// panic else, and indexed, here as one exact term: for a field that is not
/// indexed the engine drops the deletion without a word.
#[verifier::external_body]
pub(crate) fn stage_delete(session: &mut IndexSession, path_field: u32, path: &str)
    requires
        is_exact_field(writer_fields(*old(session)), path_field),
    ensures
        writer_fields(*final(session)) == writer_fields(*old(session)),
        staged_ops(*final(session)) == staged_ops(*old(session)).push(
            IndexOp::DeleteByPath { field: path_field, path: path@ },
        ),
{
    let term =
        tantivy::Term::from_field_text(tantivy::schema::Field::from_field_id(path_field), path);
    session.writer.delete_term(term);
}

/// `IndexWriter::delete_all_documents`: stages the deletion of every
/// document. The engine gives no error here, though the signature has room
/// for one.
#[verifier::external_body]
pub(crate) fn stage_delete_all(session: &mut IndexSession) -> (r: Result<(), tantivy::TantivyError>)
    ensures
        writer_fields(*final(session)) == writer_fields(*old(session)),
        r is Ok ==> staged_ops(*final(session)) == staged_ops(*old(session)).push(
            IndexOp::DeleteAll,
        ),
        r is Err ==> staged_ops(*final(session)) == staged_ops(*old(session)),
{
    session.writer.delete_all_documents()?;
    Ok(())
}

/// `IndexWriter::commit`: publishes what is staged. The writer is given up.
#[verifier::external_body]
pub(crate) fn commit_writer(session: IndexSession) -> Result<(), tantivy::TantivyError> {
    let mut session = session;
    session.writer.commit()?;
    Ok(())
}

/// `IndexWriter::rollback`: drops what is staged. The writer is given up, so
/// that it is not rolled back a second time, which the engine cannot take
/// after a rollback that failed.
#[verifier::external_body]
pub(crate) fn rollback_writer(session: IndexSession) -> Result<(), tantivy::TantivyError> {
    let mut session = session;
    session.writer.rollback()?;
    Ok(())
}

/// `IndexReader::searcher`: the documents of the reader's index as last
/// loaded.
#[verifier::external_body]
pub(crate) fn searcher_of(reader: &tantivy::IndexReader) -> (searcher: tantivy::Searcher)
    ensures
        searcher_fields(searcher) == reader_fields(*reader),
{
    reader.searcher()
}

/// `Searcher::index`: the index that the searcher searches.
#[verifier::external_body]
pub(crate) fn index_of(searcher: &tantivy::Searcher) -> (index: &tantivy::Index)
    ensures
        index_fields(*index) == searcher_fields(*searcher),
{
    searcher.index()
}

/// `QueryParser::for_index` with one default field. A field that the schema
/// does not have is left out: parsing would index past the schema.
#[verifier::external_body]
pub(crate) fn query_parser(
    index: &tantivy::Index,
    default_field: u32,
) -> tantivy::query::QueryParser
    requires
        default_field < index_fields(*index).len(),
{
    let field = tantivy::schema::Field::from_field_id(default_field);
    tantivy::query::QueryParser::for_index(index, vec![field])
}

/// `QueryParser::parse_query`. Left out is a query on which the engine's
/// grammar panics: one with a sign, white space and a star that stands alone,
/// which it reads as a test for a field that was not named.
#[verifier::external_body]
pub(crate) fn parse_query(parser: &tantivy::query::QueryParser, query: &str) -> Result<
    ParsedQuery,
    tantivy::query::QueryParserError,
>
    requires
        crate::query::query_ok(query@),
{
    Ok(ParsedQuery { query: parser.parse_query(query)? })
}

/// `Query::query_terms` with `Term::value` and the value's `as_str`: every
/// term at a leaf of the query in the order of the visit, as its text, or as
/// nothing where it is not text. A term may come more than once.
#[verifier::external_body]
pub(crate) fn query_terms(query: &ParsedQuery) -> Vec<Option<String>> {
    let mut terms = Vec::new();
    query.query.query_terms(
        &mut |term, _| terms.push(term.value().as_str().map(|text| text.to_string())),
    );
    terms
}

/// `TopDocs::with_limit` and `Searcher::search`: at most `limit` documents
/// that match, best first, each with the bits of its score and its address
/// in the searcher. Left out are a limit of zero, on which `with_limit`
/// panics, and one for which a buffer of twice as many slots of up to sixteen
/// bytes cannot be sized.
#[verifier::external_body]
pub(crate) fn top_documents(searcher: &tantivy::Searcher, query: &ParsedQuery, limit: usize) -> (r:
    Result<Vec<(u32, tantivy::DocAddress)>, tantivy::TantivyError>)
    requires
        0 < limit <= MAX_LIMIT,
    ensures
        r matches Ok(hits) ==> hits@.len() <= limit && forall|i: int|
            0 <= i < hits@.len() ==> holds_document(*searcher, (#[trigger] hits@[i]).1),
{
    let collector = tantivy::collector::TopDocs::with_limit(limit);
    let hits = searcher.search(&query.query, &collector)?;
    Ok(hits.into_iter().map(|(score, address)| (score.to_bits(), address)).collect())
}

/// `Searcher::doc`: the stored fields of a document that the searcher holds.
#[verifier::external_body]
pub(crate) fn fetch_document(searcher: &tantivy::Searcher, address: tantivy::DocAddress) -> Result<
    tantivy::TantivyDocument,
    tantivy::TantivyError,
>
    requires
        holds_document(*searcher, address),
{
    searcher.doc(address)
}

/// `TantivyDocument::get_first` and the value's `as_str`: the first value of
/// a field, where it is text.
#[verifier::external_body]
pub(crate) fn document_text(document: &tantivy::TantivyDocument, field: u32) -> Option<
    String,
> {
    let value = document.get_first(tantivy::schema::Field::from_field_id(field))?;
    value.as_str().map(|text| text.to_string())
}

/// `Index::tokenizer_for_field`: the analyser that the schema names for a
/// field. A field that the schema does not have is left out, on which the
/// call panics.
#[verifier::external_body]
pub(crate) fn tokenizer_for_field(index: &tantivy::Index, field: u32) -> Result<
    tantivy::tokenizer::TextAnalyzer,
    tantivy::TantivyError,
>
    requires
        field < index_fields(*index).len(),
{
    index.tokenizer_for_field(tantivy::schema::Field::from_field_id(field))
}

/// `TextAnalyzer::token_stream` and `TokenStream::process`: the tokens of a
/// text in stream order, each with its text and byte offsets.
#[verifier::external_body]
pub(crate) fn tokenize(analyzer: &mut tantivy::tokenizer::TextAnalyzer, text: &str) -> Vec<
    TextToken,
> {
    let mut tokens = Vec::new();
    analyzer.token_stream(text).process(
        &mut |token| {
            tokens.push(
                TextToken {
                    text: token.text.clone(),
                    offset_from: token.offset_from,
                    offset_to: token.offset_to,
                },
            )
        },
    );
    tokens
}

/// The largest number of hits that can be asked for: the engine keeps twice
/// as many slots of up to sixteen bytes, and a buffer holds at most
/// `isize::MAX` bytes.
pub const MAX_LIMIT: usize = usize::MAX / 64;

/// A search-engine failure with the text that the engine gave.
pub(crate) fn engine_failure(message: String) -> (e: Error)
    ensures
        e.spec_source() == ErrorSource::Tantivy,
        e.spec_message() == message@,
{
    Error::new(ErrorSource::Tantivy, message)
}

} // verus!
