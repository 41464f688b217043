use pg_search::fast_field::{FFType, FastColumns, TextColumn};
use pg_search::keys::ValueSet;
use pg_search::operator::CachedSearch;
use pg_search::state::{
    default_limit, FieldType, SearchConfig, SearchField, SearchIndexSchema, SearchIndexScore,
    SearchState, SegmentScorer, SnippetError,
};
use pg_search::value::TantivyValue;
use std::collections::HashMap;
use std::sync::Arc;
use tantivy::schema::{Schema, INDEXED};
use tantivy::{Index, IndexWriter, Searcher, TantivyDocument};

fn searcher(num_docs: u64) -> Searcher {
    let mut builder = Schema::builder();
    let ctid = builder.add_u64_field("ctid", INDEXED);
    let index = Index::create_in_ram(builder.build());
    let mut writer: IndexWriter = index.writer_with_num_threads(1, 15_000_000).unwrap();
    for n in 0..num_docs {
        let mut document = TantivyDocument::new();
        document.add_u64(ctid, n);
        writer.add_document(document).unwrap();
    }
    writer.commit().unwrap();
    index.reader().unwrap().searcher()
}

fn config(limit_rows: Option<usize>, offset_rows: Option<usize>) -> SearchConfig<String> {
    SearchConfig {
        query: Arc::new("title:fig".to_string()),
        index_oid: 16384,
        uuid: "uuid".to_string(),
        key_field: "id".to_string(),
        limit_rows,
        offset_rows,
    }
}

fn schema() -> SearchIndexSchema {
    let field = |name: &str, id: u32| SearchField { name: name.to_string(), id };
    SearchIndexSchema::from_parts(
        vec![field("title", 2), field("id", 0), field("price", 1)],
        vec![FieldType::I64, FieldType::F64, FieldType::Str],
    )
    .unwrap()
}

fn state(
    num_docs: u64,
    limit_rows: Option<usize>,
    offset_rows: Option<usize>,
) -> SearchState<&'static str, String> {
    SearchState::new(&schema(), searcher(num_docs), "query", &config(limit_rows, offset_rows))
}

#[test]
fn search_state_keeps_what_it_was_made_of() {
    let state = state(2, Some(7), None);
    assert_eq!(*state.query, "query");
    assert_eq!(state.searcher.num_docs(), 2);
    assert_eq!(state.config, config(Some(7), None));
    assert_eq!(*state.config.query, "title:fig");
    assert_eq!(state.schema, schema());
}

#[test]
fn a_cloned_search_is_the_same_search() {
    let state = state(3, None, Some(1));
    let clone = state.clone();
    assert!(Arc::ptr_eq(&clone.query, &state.query));
    assert!(Arc::ptr_eq(&clone.config.query, &state.config.query));
    assert_eq!(clone.searcher.num_docs(), 3);
    assert_eq!(clone.config, state.config);
    assert_eq!(clone.schema, state.schema);
    assert_eq!(format!("{:?}", clone.search()), "TopDocs(limit=3, offset=1)");
}

#[test]
fn ranks_come_from_the_row_and_the_key() {
    assert_eq!(state(0, None, None).ranking_fields(), ("ctid", "id"));
}

#[test]
fn search_collects_as_configured() {
    let collector = state(3, Some(10), Some(4)).search();
    assert_eq!(format!("{collector:?}"), "TopDocs(limit=10, offset=4)");
}

#[test]
fn search_without_a_limit_returns_all_documents() {
    let collector = state(3, None, None).search();
    assert_eq!(format!("{collector:?}"), "TopDocs(limit=3, offset=0)");
}

#[test]
fn search_of_an_empty_index_has_a_limit() {
    let collector = state(0, None, Some(1)).search();
    assert_eq!(format!("{collector:?}"), "TopDocs(limit=1, offset=1)");
    assert_eq!(default_limit(0), 1);
    assert_eq!(default_limit(1), 1);
    assert_eq!(default_limit(500), 500);
}

#[test]
fn snippets_are_generated_for_text_fields() {
    assert_eq!(state(0, None, None).snippet_generator("title"), Ok(2));
}

#[test]
fn snippets_are_refused_for_other_fields() {
    let state = state(0, None, None);
    let error = state.snippet_generator("author").unwrap_err();
    assert_eq!(error, SnippetError::MissingField);
    assert_eq!(error.message("author"), "cannot generate snippet, field does not exist");
    let error = state.snippet_generator("price").unwrap_err();
    assert_eq!(error, SnippetError::NotText);
    assert_eq!(
        error.message("price"),
        "failed to create snippet generator for field: price... can only highlight text fields"
    );
    assert_eq!(
        SnippetError::Create("out of memory".to_string()).message("title"),
        "failed to create snippet generator for field: title... out of memory"
    );
}

#[test]
fn schema_needs_a_type_for_every_field() {
    let field = SearchField { name: "id".to_string(), id: 1 };
    assert!(SearchIndexSchema::from_parts(vec![field], vec![FieldType::Str]).is_none());
    let schema = schema();
    assert_eq!(schema.get_search_field("price").unwrap().id, 1);
    assert!(schema.get_search_field("Price").is_none());
}

fn none() -> FastColumns {
    FastColumns { text: None, unsigned: None, signed: None, fraction: None, boolean: None, date: None }
}

fn terms(terms: &[(u64, &str)]) -> HashMap<u64, String> {
    terms.iter().map(|(ord, term)| (*ord, term.to_string())).collect()
}

fn texts() -> TextColumn {
    TextColumn::new(vec![vec![1, 0], vec![2], vec![]], terms(&[(1, "pear"), (2, "plum")])).unwrap()
}

#[test]
fn fast_field_types_are_tried_in_order() {
    let all = || FastColumns {
        text: Some(texts()),
        unsigned: Some(vec![Some(1)]),
        signed: Some(vec![Some(-1)]),
        fraction: Some(vec![Some(1.5f64.to_bits())]),
        boolean: Some(vec![Some(true)]),
        date: Some(vec![Some(-9)]),
    };
    let mut columns = all();
    assert!(matches!(FFType::new(columns, "f"), Ok(FFType::Text(_))));
    columns = all();
    columns.text = None;
    assert_eq!(FFType::new(columns, "f"), Ok(FFType::U64(vec![1])));
    columns = FastColumns { text: None, unsigned: None, ..all() };
    assert_eq!(FFType::new(columns, "f"), Ok(FFType::I64(vec![-1])));
    columns = FastColumns { text: None, unsigned: None, signed: None, ..all() };
    assert_eq!(FFType::new(columns, "f"), Ok(FFType::F64(vec![1.5f64.to_bits()])));
    columns = FastColumns { boolean: Some(vec![Some(true)]), date: Some(vec![Some(-9)]), ..none() };
    assert_eq!(FFType::new(columns, "f"), Ok(FFType::Bool(vec![true])));
    columns = FastColumns { date: Some(vec![Some(-9)]), ..none() };
    assert_eq!(FFType::new(columns, "f"), Ok(FFType::Date(vec![-9])));
    assert_eq!(
        FFType::new(none(), "price"),
        Err("`price` is missing or is not configured as a fast field".to_string())
    );
}

#[test]
fn documents_without_a_value_get_the_default() {
    let columns = FastColumns { unsigned: Some(vec![Some(5), None]), ..none() };
    assert_eq!(FFType::new(columns, "f"), Ok(FFType::U64(vec![5, 0])));
    let columns = FastColumns { signed: Some(vec![None]), ..none() };
    assert_eq!(FFType::new(columns, "f"), Ok(FFType::I64(vec![0])));
    let columns = FastColumns { fraction: Some(vec![None]), ..none() };
    assert_eq!(FFType::new(columns, "f"), Ok(FFType::F64(vec![0.0f64.to_bits()])));
    let columns = FastColumns { boolean: Some(vec![None]), ..none() };
    assert_eq!(FFType::new(columns, "f"), Ok(FFType::Bool(vec![false])));
    let columns = FastColumns { date: Some(vec![None]), ..none() };
    assert_eq!(
        FFType::new(columns, "f"),
        Ok(FFType::Date(vec![tantivy::DateTime::MIN.into_timestamp_nanos()]))
    );
}

#[test]
fn fast_field_values() {
    let text = FFType::Text(texts());
    assert_eq!(text.value(0), TantivyValue::Str("pear".to_string()));
    assert_eq!(text.value(1), TantivyValue::Str("plum".to_string()));
    assert_eq!(text.value_fast(0), TantivyValue::U64(1));
    assert_eq!(text.value_fast(1), TantivyValue::U64(2));
    assert_eq!(text.as_u64(0), None);
    assert!(text.has(1));
    assert!(!text.has(2));
    assert!(!text.has(3));

    let unsigned = FFType::U64(vec![3, 4]);
    assert_eq!(unsigned.value(1), TantivyValue::U64(4));
    assert_eq!(unsigned.value_fast(1), TantivyValue::U64(4));
    assert_eq!(unsigned.as_u64(1), Some(4));
    assert!(!unsigned.has(2));

    assert_eq!(FFType::I64(vec![-3]).value(0), TantivyValue::I64(-3));
    assert_eq!(FFType::I64(vec![-3]).as_u64(0), None);
    assert_eq!(FFType::F64(vec![7]).value(0), TantivyValue::F64(7));
    assert_eq!(FFType::Bool(vec![true]).value(0), TantivyValue::Bool(true));
    assert_eq!(FFType::Date(vec![11]).value_fast(0), TantivyValue::Date(11));
}

#[test]
fn text_columns_need_a_term_for_every_document() {
    assert!(TextColumn::new(vec![vec![0], vec![1]], terms(&[(0, "a")])).is_none());
    assert!(TextColumn::new(vec![vec![0, 1], vec![]], terms(&[(0, "a")])).is_some());
}

#[test]
fn documents_are_ranked_by_score_key_and_row() {
    let ctid = FastColumns { unsigned: Some(vec![Some(70), Some(71)]), ..none() };
    let key = FastColumns { signed: Some(vec![Some(-1), Some(-2)]), ..none() };
    let scorer = SegmentScorer::new(ctid, key, "id").unwrap();
    assert!(scorer.can_rank(1));
    assert!(!scorer.can_rank(2));
    let score = scorer.score(1, 2.5f32);
    assert_eq!(score.bm25, 2.5);
    assert_eq!(score.key, TantivyValue::I64(-2));
    assert_eq!(score.ctid, 71);
}

#[test]
fn ranking_needs_its_columns() {
    let some = || FastColumns { signed: Some(vec![Some(-1)]), ..none() };
    assert_eq!(
        SegmentScorer::new(none(), none(), "id"),
        Err("`ctid` is missing or is not configured as a fast field".to_string())
    );
    assert_eq!(
        SegmentScorer::new(some(), none(), "id"),
        Err("`id` is missing or is not configured as a fast field".to_string())
    );
    // Rows that are no unsigned numbers cannot be ranked.
    assert!(!SegmentScorer::new(some(), some(), "id").unwrap().can_rank(0));
}

fn hit(key: TantivyValue) -> (SearchIndexScore<f32>, u32) {
    (SearchIndexScore { bm25: 1.0, key, ctid: 1 }, 0)
}

fn text(value: &str) -> TantivyValue {
    TantivyValue::Str(value.to_string())
}

#[test]
fn operator_matches_the_keys_that_were_found() {
    let hits = vec![
        hit(TantivyValue::I64(4)),
        hit(text("four")),
        hit(TantivyValue::I64(4)),
        hit(TantivyValue::Bool(true)),
        hit(TantivyValue::Date(0)),
        hit(TantivyValue::U64(8)),
    ];
    let cached = CachedSearch::new(config(None, None), &hits);
    assert_eq!(cached.search_config.key_field, "id");
    let matches = |value: TantivyValue| cached.search_tantivy(Ok(Some(value)));
    assert_eq!(matches(TantivyValue::I64(4)), Ok(true));
    assert_eq!(matches(text("four")), Ok(true));
    assert_eq!(matches(TantivyValue::Bool(true)), Ok(true));
    assert_eq!(matches(TantivyValue::Date(0)), Ok(true));
    assert_eq!(matches(TantivyValue::U64(8)), Ok(true));
    assert_eq!(matches(TantivyValue::U64(4)), Ok(false));
    assert_eq!(matches(TantivyValue::I64(8)), Ok(false));
    assert_eq!(matches(TantivyValue::I64(0)), Ok(false));
    assert_eq!(matches(TantivyValue::Bool(false)), Ok(false));
    assert_eq!(matches(text("")), Ok(false));
    assert_eq!(matches(text("Four")), Ok(false));
    assert_eq!(cached.search_tantivy(Ok(None)), Ok(false));
    let empty: Vec<(SearchIndexScore<f32>, u32)> = vec![];
    let cached = CachedSearch::new(config(None, None), &empty);
    assert_eq!(cached.search_tantivy(Ok(Some(text("four")))), Ok(false));
}

#[test]
fn operator_reports_a_row_without_a_key() {
    let cached = CachedSearch::new(config(None, None), &vec![hit(TantivyValue::I64(4))]);
    assert_eq!(
        cached.search_tantivy(Err("null datum".to_string())),
        Err("no value present in key_field id in tuple: null datum".to_string())
    );
}

#[test]
fn fractional_keys_are_equal_as_numbers_are() {
    let numbers = [0.0, -0.0, 1.5, -1.5, f64::INFINITY, f64::NEG_INFINITY, f64::NAN, f64::MIN_POSITIVE];
    for a in numbers {
        let mut set = ValueSet::new();
        set.insert(&TantivyValue::F64(a.to_bits()));
        for b in numbers {
            let found = set.contains(&TantivyValue::F64(b.to_bits()));
            assert_eq!(found, a == b, "{a} {b}");
        }
        assert!(!set.contains(&TantivyValue::U64(a.to_bits())));
    }
}

#[test]
fn only_the_keys_of_what_was_found_matter() {
    let one = vec![hit(TantivyValue::I64(1)), hit(text("two")), hit(TantivyValue::I64(1))];
    let mut other = vec![hit(text("two")), hit(TantivyValue::I64(1))];
    other[0].0.bm25 = 9.0;
    let one = CachedSearch::new(config(None, None), &one);
    let other = CachedSearch::new(config(None, None), &other);
    for key in [TantivyValue::I64(1), text("two"), text("one"), TantivyValue::I64(2)] {
        assert_eq!(one.keys.contains(&key), other.keys.contains(&key), "{key:?}");
    }
}

#[test]
fn fast_values_tell_texts_apart() {
    let terms = terms(&[(4, "fig"), (7, "kiwi")]);
    let column = FFType::Text(TextColumn::new(vec![vec![4], vec![7], vec![4]], terms).unwrap());
    for a in 0..3 {
        for b in 0..3 {
            let same = column.value(a) == column.value(b);
            assert_eq!(column.value_fast(a) == column.value_fast(b), same);
        }
    }
}

#[test]
fn equal_values_have_equal_keys() {
    let values = || {
        vec![
            text(""),
            text("0"),
            TantivyValue::U64(0),
            TantivyValue::U64(1),
            TantivyValue::I64(0),
            TantivyValue::I64(-1),
            TantivyValue::F64(0),
            TantivyValue::Bool(false),
            TantivyValue::Bool(true),
            TantivyValue::Date(0),
        ]
    };
    for (i, a) in values().iter().enumerate() {
        for (j, b) in values().iter().enumerate() {
            assert_eq!(a.key() == b.key(), i == j, "{a:?} {b:?}");
        }
    }
    assert_eq!(TantivyValue::F64((-0.0f64).to_bits()).key(), TantivyValue::F64(0).key());
    assert_eq!(TantivyValue::F64(f64::NAN.to_bits()).key(), None);
}

#[test]
fn more_results_find_no_less() {
    let keys = || [text("fig"), TantivyValue::I64(1), text("fig"), text("kiwi")];
    let mut before = 0;
    for limit in 0..=4 {
        let hits: Vec<_> = keys().into_iter().take(limit).map(hit).collect();
        let cached = CachedSearch::new(config(Some(4), None), &hits);
        let distinct = [text("fig"), TantivyValue::I64(1), text("kiwi"), text("plum")];
        let found = distinct.iter().filter(|key| cached.keys.contains(key)).count();
        assert!(before <= found && found <= limit);
        before = found;
    }
    assert_eq!(before, 3);
}
