//! A search of an index.
use crate::error::joined;
use crate::fast_field::{FFType, FFView, FastColumns};
use crate::value::TantivyValue;
use std::sync::Arc;
use tantivy::collector::TopDocs;
use tantivy::Searcher;
use vstd::prelude::*;
use vstd::string::*;

verus! {

/// A point-in-time view of an index.
#[verifier::external_type_specification]
#[verifier::external_body]
pub struct ExSearcher(Searcher);

/// A collector of the documents with the best scores.
#[verifier::external_type_specification]
#[verifier::external_body]
pub struct ExTopDocs(TopDocs);

/// How many documents a searcher holds.
pub uninterp spec fn doc_count(searcher: Searcher) -> u64;

/// How many documents a collector is limited to.
pub uninterp spec fn top_docs_limit(collector: TopDocs) -> usize;

/// How many documents a collector skips.
pub uninterp spec fn top_docs_offset(collector: TopDocs) -> usize;

/// A searcher on the same view of the index.
///
/// This is `tantivy::Searcher::clone`. Not proved here: that the clone is no other searcher than
/// the one it is made of. Both hold the same segments, which do not change.
pub assume_specification[ <Searcher as Clone>::clone ](searcher: &Searcher) -> (r: Searcher)
    ensures
        r == *searcher,
;

/// How many documents a searcher holds.
///
/// This calls `tantivy::Searcher::num_docs`. Not proved here: that the number is that of the
/// documents of the searcher, so that one searcher always gives the same one.
#[verifier::external_body]
fn num_docs(searcher: &Searcher) -> (r: u64)
    ensures
        r == doc_count(*searcher),
{
    searcher.num_docs()
}

/// A collector that is limited to `limit` documents and skips none.
///
/// This calls `tantivy::collector::TopDocs::with_limit`, which panics if the limit is 0. Not proved
/// here: that the collector keeps the limit, and that it skips nothing.
#[verifier::external_body]
fn with_limit(limit: usize) -> (r: TopDocs)
    requires
        limit > 0,
    ensures
        top_docs_limit(r) == limit,
        top_docs_offset(r) == 0,
{
    TopDocs::with_limit(limit)
}

/// The same collector, but one that skips `offset` documents.
///
/// This calls `tantivy::collector::TopDocs::and_offset`. Not proved here: that the collector skips
/// that many, and that its limit stays.
#[verifier::external_body]
fn and_offset(collector: TopDocs, offset: usize) -> (r: TopDocs)
    ensures
        top_docs_limit(r) == top_docs_limit(collector),
        top_docs_offset(r) == offset,
{
    collector.and_offset(offset)
}

/// What to search, what for, and how much of what is found to return. `S` is the type of a query
/// as statements hold it. The copies of a configuration share theirs.
#[derive(Debug, PartialEq, Eq)]
pub struct SearchConfig<S> {
    pub query: Arc<S>,
    pub index_oid: u32,
    pub uuid: String,
    pub key_field: String,
    pub limit_rows: Option<usize>,
    pub offset_rows: Option<usize>,
}

impl<S> Clone for SearchConfig<S> {
    fn clone(&self) -> (r: Self)
        ensures
            r == *self,
    {
        SearchConfig {
            query: self.query.clone(),
            index_oid: self.index_oid,
            uuid: self.uuid.clone(),
            key_field: self.key_field.clone(),
            limit_rows: self.limit_rows,
            offset_rows: self.offset_rows,
        }
    }
}

/// The types of fields.
#[derive(Debug, Clone, Copy, PartialEq, Eq)]
pub enum FieldType {
    Str,
    U64,
    I64,
    F64,
    Bool,
    Date,
    Facet,
    Bytes,
    JsonObject,
    IpAddr,
}

/// A field of an index: its name, and its id in the schema.
#[derive(Debug, PartialEq, Eq)]
pub struct SearchField {
    pub name: String,
    pub id: u32,
}

impl Clone for SearchField {
    fn clone(&self) -> (r: Self)
        ensures
            r == *self,
    {
        SearchField { name: self.name.clone(), id: self.id }
    }
}

/// The schema of an index: its fields, and the type of the field of each id.
#[derive(Debug, PartialEq, Eq)]
pub struct SearchIndexSchema {
    fields: Vec<SearchField>,
    types: Vec<FieldType>,
}

impl Clone for SearchIndexSchema {
    fn clone(&self) -> (r: Self)
        ensures
            r.fields() == self.fields(),
            r.types() == self.types(),
    {
        proof {
            use_type_invariant(self);
        }
        let fields = self.fields.clone();
        let types = self.types.clone();
        assert(fields@ =~= self.fields@);
        assert(types@ =~= self.types@);
        SearchIndexSchema { fields, types }
    }
}

/// Every field has a type.
pub open spec fn all_typed(fields: Seq<SearchField>, types: Seq<FieldType>) -> bool {
    forall|i: int| 0 <= i < fields.len() ==> (#[trigger] fields[i]).id < types.len()
}

/// Where the first of `fields` that has this name stands, if one has it.
pub open spec fn position(fields: Seq<SearchField>, name: Seq<char>) -> Option<int>
    decreases fields.len(),
{
    if fields.len() == 0 {
        None
    } else if fields[0].name@ == name {
        Some(0)
    } else {
        match position(fields.drop_first(), name) {
            Some(i) => Some(i + 1),
            None => None,
        }
    }
}

impl SearchIndexSchema {
    /// The fields of the index.
    pub closed spec fn fields(&self) -> Seq<SearchField> {
        self.fields@
    }

    /// The type of the field of each id.
    pub closed spec fn types(&self) -> Seq<FieldType> {
        self.types@
    }

    #[verifier::type_invariant]
    spec fn wf(&self) -> bool {
        all_typed(self.fields(), self.types())
    }

    /// A schema of these fields, whose types `types` gives by id, unless a field has none.
    pub fn from_parts(fields: Vec<SearchField>, types: Vec<FieldType>) -> (r: Option<Self>)
        ensures
            r is Some <==> all_typed(fields@, types@),
            r matches Some(schema) ==> schema.fields() == fields@ && schema.types() == types@,
    {
        let mut i: usize = 0;
        while i < fields.len()
            invariant
                i <= fields.len(),
                forall|j: int| 0 <= j < i ==> (#[trigger] fields@[j]).id < types@.len(),
            decreases fields.len() - i,
        {
            if fields[i].id as usize >= types.len() {
                assert(fields@[i as int].id >= types@.len());
                return None;
            }
            i = i + 1;
        }
        Some(SearchIndexSchema { fields, types })
    }

    /// The field of this name, if there is one.
    pub fn get_search_field(&self, name: &str) -> (r: Option<&SearchField>)
        ensures
            match position(self.fields(), name@) {
                Some(i) => 0 <= i < self.fields().len() && r == Some(&self.fields()[i])
                    && self.fields()[i].name@ == name@,
                None => r is None,
            },
    {
        let wanted = name.to_owned();
        assert(self.fields@.skip(0) =~= self.fields@);
        let mut i: usize = 0;
        while i < self.fields.len()
            invariant
                i <= self.fields.len(),
                wanted@ == name@,
                position(self.fields@, name@) == match position(
                    self.fields@.skip(i as int),
                    name@,
                ) {
                    Some(n) => Some(n + i),
                    None => None,
                },
            decreases self.fields.len() - i,
        {
            if self.fields[i].name == wanted {
                return Some(&self.fields[i]);
            }
            assert(self.fields@.skip(i as int).drop_first() =~= self.fields@.skip(i + 1));
            i = i + 1;
        }
        None
    }
}

/// Why no snippets can be generated for a field.
#[derive(Debug, PartialEq, Eq)]
pub enum SnippetError {
    /// There is no such field.
    MissingField,
    /// The field does not hold text.
    NotText,
    /// The generator could not be created, with an error of this text.
    Create(String),
}

impl SnippetError {
    /// What is said of the field of this name.
    pub open spec fn text(&self, field_name: Seq<char>) -> Seq<char> {
        match self {
            SnippetError::MissingField => "cannot generate snippet, field does not exist"@,
            SnippetError::NotText => "failed to create snippet generator for field: "@ + field_name
                + "... "@ + "can only highlight text fields"@,
            SnippetError::Create(text) => "failed to create snippet generator for field: "@
                + field_name + "... "@ + text@,
        }
    }

    /// What is said of the field of this name.
    pub fn message(&self, field_name: &str) -> (r: String)
        ensures
            r@ == self.text(field_name@),
    {
        let reason: &str = match self {
            SnippetError::MissingField => {
                return "cannot generate snippet, field does not exist".to_owned();
            },
            SnippetError::NotText => "can only highlight text fields",
            SnippetError::Create(text) => text.as_str(),
        };
        let named = joined("failed to create snippet generator for field: ", field_name);
        let dotted = joined(named.as_str(), "... ");
        joined(dotted.as_str(), reason)
    }
}

/// The id of the text field of this name, for which snippets can be generated.
pub open spec fn snippet_field(schema: SearchIndexSchema, field_name: Seq<char>) -> Result<
    u32,
    SnippetError,
> {
    match position(schema.fields(), field_name) {
        None => Err(SnippetError::MissingField),
        Some(i) => {
            let id = schema.fields()[i].id;
            if schema.types()[id as int] is Str {
                Ok(id)
            } else {
                Err(SnippetError::NotText)
            }
        },
    }
}

/// How many documents a search returns that sets no limit: all there are, and one where there are
/// none.
pub open spec fn unlimited(num_docs: u64) -> usize {
    if num_docs as usize > 0 {
        num_docs as usize
    } else {
        1
    }
}

/// How many documents a search returns that sets no limit. There can be none to return, but a
/// collector takes no limit of 0.
pub fn default_limit(num_docs: u64) -> (r: usize)
    ensures
        r == unlimited(num_docs),
        r > 0,
{
    let limit: usize = num_docs as usize;
    if limit > 0 {
        limit
    } else {
        1
    }
}

/// How a document ranks among those that a search has found: by its score `B`, with the value of
/// its key field and the place of its row.
#[derive(Debug, PartialEq, Eq)]
pub struct SearchIndexScore<B> {
    pub bm25: B,
    pub key: TantivyValue,
    pub ctid: u64,
}

/// What it takes to rank the documents of a segment: the columns of their rows and of their keys.
#[derive(Debug, PartialEq, Eq)]
pub struct SegmentScorer {
    pub ctid_ff: FFType,
    pub key_ff: FFType,
}

impl SegmentScorer {
    /// What it takes to rank the documents of a segment, given the columns of its `ctid` field and
    /// of its key field; or what is said of the first of the two that has none.
    pub fn new(ctid: FastColumns, key: FastColumns, key_field: &str) -> (r: Result<Self, String>)
        ensures
            match r {
                Ok(scorer) => ctid.chosen() == Some(scorer.ctid_ff@) && key.chosen() == Some(
                    scorer.key_ff@,
                ),
                Err(text) => if ctid.chosen() is None {
                    text@ == crate::fast_field::missing_text("ctid"@)
                } else {
                    key.chosen() is None && text@ == crate::fast_field::missing_text(key_field@)
                },
            },
    {
        let ctid_ff = match FFType::new(ctid, "ctid") {
            Ok(column) => column,
            Err(text) => return Err(text),
        };
        let key_ff = match FFType::new(key, key_field) {
            Ok(column) => column,
            Err(text) => return Err(text),
        };
        Ok(SegmentScorer { ctid_ff, key_ff })
    }

    /// The document can be ranked: it has a key and a row, and rows are unsigned numbers.
    pub open spec fn ranks(&self, doc: u32) -> bool {
        &&& self.key_ff@.has(doc)
        &&& self.ctid_ff@ is U64
        &&& self.ctid_ff@.has(doc)
    }

    /// Whether the document can be ranked.
    pub fn can_rank(&self, doc: u32) -> (r: bool)
        ensures
            r == self.ranks(doc),
    {
        let rows_are_numbers = match &self.ctid_ff {
            FFType::U64(_) => true,
            _ => false,
        };
        rows_are_numbers && self.ctid_ff.has(doc) && self.key_ff.has(doc)
    }

    /// The rank of a document, given its score.
    pub fn score<B>(&self, doc: u32, bm25: B) -> (r: SearchIndexScore<B>)
        requires
            self.ranks(doc),
        ensures
            r.bm25 == bm25,
            r.key@ == self.key_ff@.value(doc),
            crate::value::ValueView::U64(r.ctid) == self.ctid_ff@.value(doc),
    {
        let key = self.key_ff.value(doc);
        match self.ctid_ff.as_u64(doc) {
            Some(ctid) => SearchIndexScore { bm25, key, ctid },
            None => vstd::pervasive::unreached(),
        }
    }
}

/// A search: its query `Q`, ready to run, the view of the index that it searches, and what it was
/// set up with.
pub struct SearchState<Q, S> {
    pub query: Arc<Q>,
    pub searcher: Searcher,
    pub config: SearchConfig<S>,
    pub schema: SearchIndexSchema,
}

impl<Q, S> Clone for SearchState<Q, S> {
    fn clone(&self) -> (r: Self)
        ensures
            r.query == self.query,
            r.searcher == self.searcher,
            r.config == self.config,
            r.schema.fields() == self.schema.fields(),
            r.schema.types() == self.schema.types(),
    {
        SearchState {
            query: self.query.clone(),
            searcher: self.searcher.clone(),
            config: self.config.clone(),
            schema: self.schema.clone(),
        }
    }
}

impl<Q, S> SearchState<Q, S> {
    /// A search of an index of this schema. `query` is what the query of the configuration was
    /// parsed to.
    pub fn new(
        schema: &SearchIndexSchema,
        searcher: Searcher,
        query: Q,
        config: &SearchConfig<S>,
    ) -> (r: Self)
        ensures
            *r.query == query,
            r.searcher == searcher,
            r.config == *config,
            r.schema.fields() == schema.fields(),
            r.schema.types() == schema.types(),
    {
        SearchState {
            query: Arc::new(query),
            config: config.clone(),
            searcher,
            schema: schema.clone(),
        }
    }

    /// The id of the field of this name, if snippets of it can be generated.
    pub fn snippet_generator(&self, field_name: &str) -> (r: Result<u32, SnippetError>)
        ensures
            r == snippet_field(self.schema, field_name@),
    {
        proof {
            use_type_invariant(&self.schema);
        }
        match self.schema.get_search_field(field_name) {
            None => Err(SnippetError::MissingField),
            Some(field) => {
                match self.schema.types[field.id as usize] {
                    FieldType::Str => Ok(field.id),
                    _ => Err(SnippetError::NotText),
                }
            },
        }
    }

    /// The names of the two fields whose columns rank what the search finds: that of the place of a
    /// row, and the key field of the configuration. A [`SegmentScorer`] takes their columns in this
    /// order.
    pub fn ranking_fields(&self) -> (r: (&str, &str))
        ensures
            r.0@ == "ctid"@,
            r.1@ == self.config.key_field@,
    {
        ("ctid", self.config.key_field.as_str())
    }

    /// The collector of what the search returns.
    pub fn search(&self) -> (r: TopDocs)
        requires
            self.config.limit_rows != Some(0usize),
        ensures
            top_docs_limit(r) == match self.config.limit_rows {
                Some(limit) => limit,
                None => unlimited(doc_count(self.searcher)),
            },
            top_docs_offset(r) == match self.config.offset_rows {
                Some(offset) => offset,
                None => 0,
            },
            top_docs_limit(r) > 0,
    {
        let limit: usize = match self.config.limit_rows {
            Some(limit) => limit,
            // There can be some cost to counting the documents, so they are not counted unless
            // the default value is needed.
            None => default_limit(num_docs(&self.searcher)),
        };
        let offset: usize = match self.config.offset_rows {
            Some(offset) => offset,
            None => 0,
        };
        and_offset(with_limit(limit), offset)
    }
}

/// A search without a limit cuts no document off: it is limited to as many as there are. The limit
/// is never zero, and it is one where there are none.
pub proof fn law_no_document_is_cut_off(num_docs: u64)
    ensures
        0 < num_docs <= usize::MAX ==> unlimited(num_docs) == num_docs,
        num_docs == 0 ==> unlimited(num_docs) == 1,
        unlimited(num_docs) > 0,
{
}

/// A field is found by its name, and of several fields of one name the first; one that has another
/// name never is.
pub proof fn law_fields_are_found_by_name(fields: Seq<SearchField>, name: Seq<char>)
    ensures
        match position(fields, name) {
            Some(i) => {
                &&& 0 <= i < fields.len()
                &&& fields[i].name@ == name
                &&& forall|j: int| 0 <= j < i ==> (#[trigger] fields[j]).name@ != name
            },
            None => forall|j: int| 0 <= j < fields.len() ==> (#[trigger] fields[j]).name@ != name,
        },
    decreases fields.len(),
{
    if fields.len() > 0 {
        let rest = fields.drop_first();
        law_fields_are_found_by_name(rest, name);
        assert forall|j: int| 0 < j < fields.len() implies #[trigger] fields[j] == rest[j - 1] by {}
    }
}

/// Snippets of a field are made of that very field: its name is the one asked for, and it holds
/// text. They can be had of every text field, unless a field before it has the same name; of a
/// field that holds no text, and of a name that no field has, they cannot, and the reason is given.
pub proof fn law_snippets_are_of_the_named_field(schema: SearchIndexSchema, name: Seq<char>)
    ensures
        snippet_field(schema, name) matches Ok(id) ==> exists|i: int|
            0 <= i < schema.fields().len() && (#[trigger] schema.fields()[i]).id == id
                && schema.fields()[i].name@ == name && schema.types()[id as int] is Str,
        forall|i: int|
            0 <= i < schema.fields().len() && (#[trigger] schema.fields()[i]).name@ == name && (
            forall|j: int| 0 <= j < i ==> (#[trigger] schema.fields()[j]).name@ != name)
                ==> snippet_field(schema, name) == if schema.types()[schema.fields()[i].id as int]
                == FieldType::Str {
                Ok::<u32, SnippetError>(schema.fields()[i].id)
            } else {
                Err(SnippetError::NotText)
            },
        (forall|i: int|
            0 <= i < schema.fields().len() ==> (#[trigger] schema.fields()[i]).name@ != name)
            ==> snippet_field(schema, name) == Err::<u32, _>(SnippetError::MissingField),
{
    law_fields_are_found_by_name(schema.fields(), name);
    if let Some(at) = position(schema.fields(), name) {
        assert forall|i: int|
            0 <= i < schema.fields().len() && (#[trigger] schema.fields()[i]).name@ == name && (
            forall|j: int| 0 <= j < i ==> (#[trigger] schema.fields()[j]).name@ != name) implies i
            == at by {
            assert(schema.fields()[at].name@ == name);
        }
    }
}

/// Who asks for snippets that cannot be had is told why, and of which field.
pub proof fn law_missing_snippets_are_explained(field_name: Seq<char>, reason: String)
    ensures
        SnippetError::MissingField.text(field_name)
            == "cannot generate snippet, field does not exist"@,
        SnippetError::NotText.text(field_name) == "failed to create snippet generator for field: "@
            + field_name + "... "@ + "can only highlight text fields"@,
        SnippetError::Create(reason).text(field_name)
            == "failed to create snippet generator for field: "@ + field_name + "... "@ + reason@,
{
}

/// One more field makes no schema bad exactly if there is a type for its id.
pub proof fn law_fields_have_types(
    fields: Seq<SearchField>,
    types: Seq<FieldType>,
    more: SearchField,
)
    ensures
        all_typed(Seq::empty(), types),
        all_typed(fields.push(more), types) <==> all_typed(fields, types) && more.id < types.len(),
{
    let longer = fields.push(more);
    if all_typed(longer, types) {
        assert forall|i: int| 0 <= i < fields.len() implies (#[trigger] fields[i]).id
            < types.len() by {
            assert(longer[i] == fields[i]);
        }
        assert(longer[fields.len() as int] == more);
    }
    if all_typed(fields, types) && more.id < types.len() {
        assert forall|i: int| 0 <= i < longer.len() implies (#[trigger] longer[i]).id
            < types.len() by {
            if i < fields.len() {
                assert(longer[i] == fields[i]);
            }
        }
    }
}

/// A document can be ranked exactly if both columns have a value for it and rows are unsigned
/// numbers; its rank has the very number that the column holds for its row.
pub proof fn law_ranks_hold_the_row(scorer: SegmentScorer, doc: u32)
    ensures
        scorer.ranks(doc) <==> scorer.key_ff@.has(doc) && (scorer.ctid_ff@ matches FFView::U64(rows)
            && doc < rows.len()),
        scorer.ctid_ff@ matches FFView::U64(rows) ==> scorer.ctid_ff@.value(doc)
            == crate::value::ValueView::U64(rows[doc as int]),
{
}

} // verus!
