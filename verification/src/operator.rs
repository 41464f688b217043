//! The operator that tells whether a row matches a search.
use crate::error::joined;
use crate::keys::ValueSet;
use crate::state::{SearchConfig, SearchIndexScore};
use crate::value::TantivyValue;
use vstd::prelude::*;
use vstd::string::*;

verus! {

/// A search and the keys of the rows that it has found, kept for the rows of one statement.
pub struct CachedSearch<S> {
    pub search_config: SearchConfig<S>,
    pub keys: ValueSet,
}

/// One of the documents found has a key that equals `key`.
pub open spec fn found<B, A>(
    top_docs: Seq<(SearchIndexScore<B>, A)>,
    key: crate::value::ValueView,
) -> bool {
    exists|i: int|
        0 <= i < top_docs.len() && crate::value::same_value(#[trigger] top_docs[i].0.key@, key)
}

/// What is said of a row without a key.
pub open spec fn no_key_text(key_field: Seq<char>, error: Seq<char>) -> Seq<char> {
    "no value present in key_field "@ + key_field + " in tuple: "@ + error
}

impl<S> CachedSearch<S> {
    /// The search found a row with this key.
    pub open spec fn finds(&self, key: crate::value::ValueView) -> bool {
        self.keys.holds(key)
    }

    /// Keeps the keys of the documents that a search has found.
    pub fn new<B, A>(
        search_config: SearchConfig<S>,
        top_docs: &Vec<(SearchIndexScore<B>, A)>,
    ) -> (r: Self)
        ensures
            r.search_config == search_config,
            forall|key: crate::value::ValueView| #[trigger]
                r.finds(key) <==> found(top_docs@, key),
    {
        let mut keys = ValueSet::new();
        let mut i: usize = 0;
        while i < top_docs.len()
            invariant
                i <= top_docs.len(),
                forall|key: crate::value::ValueView| #[trigger]
                    keys.holds(key) <==> found(top_docs@.take(i as int), key),
            decreases top_docs.len() - i,
        {
            let ghost before = keys;
            keys.insert(&top_docs[i].0.key);
            proof {
                let old_docs = top_docs@.take(i as int);
                let new_docs = top_docs@.take(i + 1);
                assert forall|key: crate::value::ValueView| #[trigger] keys.holds(key) <==> found(
                    new_docs,
                    key,
                ) by {
                    assert(before.holds(key) <==> found(old_docs, key));
                    if found(old_docs, key) {
                        let n = choose|n: int|
                            0 <= n < old_docs.len() && crate::value::same_value(
                                #[trigger] old_docs[n].0.key@,
                                key,
                            );
                        assert(new_docs[n] == old_docs[n]);
                    }
                    if found(new_docs, key) {
                        let n = choose|n: int|
                            0 <= n < new_docs.len() && crate::value::same_value(
                                #[trigger] new_docs[n].0.key@,
                                key,
                            );
                        if n < i {
                            assert(new_docs[n] == old_docs[n]);
                        }
                    }
                    assert(new_docs[i as int] == top_docs@[i as int]);
                }
            }
            i = i + 1;
        }
        assert(top_docs@.take(i as int) =~= top_docs@);
        CachedSearch { search_config, keys }
    }

    /// Whether the row whose key field holds `element` matches the search. `element` is the value
    /// of the field, `None` if it is of a type that no key has, or the text of the error that
    /// reading it gave.
    pub fn search_tantivy(&self, element: Result<Option<TantivyValue>, String>) -> (r: Result<
        bool,
        String,
    >)
        ensures
            match element {
                Ok(Some(key)) => r == Ok::<bool, String>(self.finds(key@)),
                Ok(None) => r == Ok::<bool, String>(false),
                Err(error) => r matches Err(text) && text@ == no_key_text(
                    self.search_config.key_field@,
                    error@,
                ),
            },
    {
        match element {
            Ok(Some(key)) => Ok(self.keys.contains(&key)),
            Ok(None) => Ok(false),
            Err(error) => {
                let named = joined(
                    "no value present in key_field ",
                    self.search_config.key_field.as_str(),
                );
                let in_tuple = joined(named.as_str(), " in tuple: ");
                Err(joined(in_tuple.as_str(), error.as_str()))
            },
        }
    }
}

/// What a row's key matches does not depend on the order in which a search returns what it has
/// found, nor on how often, nor on the scores.
pub proof fn law_only_keys_matter<B, A, C, E>(
    top_docs: Seq<(SearchIndexScore<B>, A)>,
    others: Seq<(SearchIndexScore<C>, E)>,
    key: crate::value::ValueView,
)
    requires
        forall|i: int|
            0 <= i < top_docs.len() ==> exists|j: int|
                0 <= j < others.len() && (#[trigger] top_docs[i]).0.key@ == (
                #[trigger] others[j]).0.key@,
        forall|j: int|
            0 <= j < others.len() ==> exists|i: int|
                0 <= i < top_docs.len() && (#[trigger] top_docs[i]).0.key@ == (
                #[trigger] others[j]).0.key@,
    ensures
        found(top_docs, key) == found(others, key),
{
    if found(top_docs, key) {
        let i = choose|i: int|
            0 <= i < top_docs.len() && crate::value::same_value(#[trigger] top_docs[i].0.key@, key);
        assert(top_docs[i].0.key@ == top_docs[i].0.key@);
    }
    if found(others, key) {
        let j = choose|j: int|
            0 <= j < others.len() && crate::value::same_value(#[trigger] others[j].0.key@, key);
        assert(others[j].0.key@ == others[j].0.key@);
    }
}

/// A search that returns more finds no less: a key that the first of its results find, all of them
/// find too.
pub proof fn law_more_results_find_no_less<B, A>(
    top_docs: Seq<(SearchIndexScore<B>, A)>,
    others: Seq<(SearchIndexScore<B>, A)>,
    key: crate::value::ValueView,
)
    requires
        top_docs.is_prefix_of(others),
    ensures
        found(top_docs, key) ==> found(others, key),
{
    if found(top_docs, key) {
        let i = choose|i: int|
            0 <= i < top_docs.len() && crate::value::same_value(#[trigger] top_docs[i].0.key@, key);
        assert(others[i] == top_docs[i]);
    }
}

/// A search finds no more keys than it has returned results: of keys that are found and of which
/// no two are equal, there are at most as many. So a search that is limited to some number of
/// results finds at most that many keys.
pub proof fn law_no_more_keys_than_results<B, A>(
    top_docs: Seq<(SearchIndexScore<B>, A)>,
    keys: Seq<crate::value::ValueView>,
)
    requires
        forall|i: int| 0 <= i < keys.len() ==> found(top_docs, #[trigger] keys[i]),
        forall|i: int, j: int|
            0 <= i < j < keys.len() ==> !crate::value::same_value(
                #[trigger] keys[i],
                #[trigger] keys[j],
            ),
    ensures
        keys.len() <= top_docs.len(),
{
    // Each key is found by a result of its own.
    let finders = Seq::new(
        keys.len(),
        |i: int|
            choose|n: int|
                0 <= n < top_docs.len() && crate::value::same_value(
                    #[trigger] top_docs[n].0.key@,
                    keys[i],
                ),
    );
    assert forall|i: int| 0 <= i < keys.len() implies {
        &&& 0 <= #[trigger] finders[i] < top_docs.len()
        &&& crate::value::same_value(top_docs[finders[i]].0.key@, keys[i])
    } by {
        assert(found(top_docs, keys[i]));
    }
    assert forall|i: int, j: int| 0 <= i < j < keys.len() implies finders[i] != finders[j] by {
        if finders[i] == finders[j] {
            assert(crate::value::same_value(keys[i], keys[j]));
        }
    }
    assert(finders.no_duplicates());
    finders.unique_seq_to_set();
    let places = vstd::set_lib::set_int_range(0, top_docs.len() as int);
    vstd::set_lib::lemma_int_range(0, top_docs.len() as int);
    assert(finders.to_set().subset_of(places));
    vstd::set_lib::lemma_len_subset(finders.to_set(), places);
}

/// No results find no key, and one more result finds the keys that equal its own, besides those
/// that were found before.
pub proof fn law_each_result_finds_its_key<B, A>(
    top_docs: Seq<(SearchIndexScore<B>, A)>,
    more: (SearchIndexScore<B>, A),
    key: crate::value::ValueView,
)
    ensures
        !found(Seq::<(SearchIndexScore<B>, A)>::empty(), key),
        found(top_docs.push(more), key) <==> found(top_docs, key) || crate::value::same_value(
            more.0.key@,
            key,
        ),
{
    let longer = top_docs.push(more);
    assert(longer[top_docs.len() as int] == more);
    if found(top_docs, key) {
        law_more_results_find_no_less(top_docs, longer, key);
    }
    if found(longer, key) {
        let i = choose|i: int|
            0 <= i < longer.len() && crate::value::same_value(#[trigger] longer[i].0.key@, key);
        if i < top_docs.len() {
            assert(top_docs[i] == longer[i]);
        }
    }
}

/// A row whose key cannot be read is reported with the key field and with what went wrong.
pub proof fn law_missing_keys_are_explained(key_field: Seq<char>, error: Seq<char>)
    ensures
        no_key_text(key_field, error) == "no value present in key_field "@ + key_field
            + " in tuple: "@ + error,
{
}

} // verus!
