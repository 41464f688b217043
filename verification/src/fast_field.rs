//! The columns in which a segment of an index keeps the values of a field by document.
use crate::error::joined;
use crate::value::{TantivyValue, ValueView};
use std::collections::HashMap;
use vstd::prelude::*;
use vstd::string::*;

verus! {

broadcast use vstd::std_specs::hash::group_hash_axioms;

/// A column of texts: for each document the ordinals of its terms, and the term of each ordinal
/// that is the first of a document.
#[derive(Debug, PartialEq, Eq)]
pub struct TextColumn {
    ords: Vec<Vec<u64>>,
    terms: HashMap<u64, String>,
}

/// The ordinals of each document.
pub open spec fn ords_view(ords: Vec<Vec<u64>>) -> Seq<Seq<u64>> {
    ords@.map_values(|ords: Vec<u64>| ords@)
}

/// The terms of ordinals.
pub open spec fn terms_view(terms: HashMap<u64, String>) -> Map<u64, Seq<char>> {
    terms@.map_values(|term: String| term@)
}

/// The first ordinal of every document has a term.
pub open spec fn all_named(ords: Seq<Seq<u64>>, terms: Map<u64, Seq<char>>) -> bool {
    forall|doc: int|
        0 <= doc < ords.len() && (#[trigger] ords[doc]).len() > 0 ==> terms.contains_key(
            ords[doc][0],
        )
}

impl TextColumn {
    /// The ordinals of each document.
    pub closed spec fn ords(&self) -> Seq<Seq<u64>> {
        ords_view(self.ords)
    }

    /// The terms of ordinals.
    pub closed spec fn terms(&self) -> Map<u64, Seq<char>> {
        terms_view(self.terms)
    }

    #[verifier::type_invariant]
    spec fn wf(&self) -> bool {
        all_named(self.ords(), self.terms())
    }

    /// A column of these ordinals and terms, unless the first ordinal of a document has no term.
    pub fn new(ords: Vec<Vec<u64>>, terms: HashMap<u64, String>) -> (r: Option<Self>)
        ensures
            r is Some <==> all_named(ords_view(ords), terms_view(terms)),
            r matches Some(column) ==> {
                &&& column.ords() == ords_view(ords)
                &&& column.terms() == terms_view(terms)
            },
    {
        let mut doc: usize = 0;
        while doc < ords.len()
            invariant
                doc <= ords.len(),
                forall|d: int|
                    0 <= d < doc && (#[trigger] ords_view(ords)[d]).len() > 0
                        ==> terms_view(terms).contains_key(ords_view(ords)[d][0]),
            decreases ords.len() - doc,
        {
            if ords[doc].len() > 0 && !terms.contains_key(&ords[doc][0]) {
                assert(ords_view(ords)[doc as int].len() > 0);
                return None;
            }
            doc = doc + 1;
        }
        Some(TextColumn { ords, terms })
    }
}

/// The columns of one field, by the type of their values: `None` where there is none of that type.
/// A column of other than texts holds, for each document, the first of its values, if it has any;
/// fractional numbers are given by their IEEE 754 bits, dates by their nanoseconds.
#[derive(Debug, PartialEq, Eq)]
pub struct FastColumns {
    pub text: Option<TextColumn>,
    pub unsigned: Option<Vec<Option<u64>>>,
    pub signed: Option<Vec<Option<i64>>>,
    pub fraction: Option<Vec<Option<u64>>>,
    pub boolean: Option<Vec<Option<bool>>>,
    pub date: Option<Vec<Option<i64>>>,
}

/// Helper for working with different "fast field" types as if they're all one type.
#[derive(Debug, PartialEq, Eq)]
pub enum FFType {
    Text(TextColumn),
    I64(Vec<i64>),
    F64(Vec<u64>),
    U64(Vec<u64>),
    Bool(Vec<bool>),
    Date(Vec<i64>),
}

/// An [`FFType`] with the views of its columns.
pub enum FFView {
    Text { ords: Seq<Seq<u64>>, terms: Map<u64, Seq<char>> },
    I64(Seq<i64>),
    F64(Seq<u64>),
    U64(Seq<u64>),
    Bool(Seq<bool>),
    Date(Seq<i64>),
}

impl View for FFType {
    type V = FFView;

    open spec fn view(&self) -> FFView {
        match *self {
            FFType::Text(column) => FFView::Text { ords: column.ords(), terms: column.terms() },
            FFType::I64(column) => FFView::I64(column@),
            FFType::F64(column) => FFView::F64(column@),
            FFType::U64(column) => FFView::U64(column@),
            FFType::Bool(column) => FFView::Bool(column@),
            FFType::Date(column) => FFView::Date(column@),
        }
    }
}

/// A column with `default` for each document that has no value.
pub open spec fn filled<T>(column: Seq<Option<T>>, default: T) -> Seq<T> {
    column.map_values(
        |value: Option<T>|
            match value {
                Some(value) => value,
                None => default,
            },
    )
}

/// A column with `default` for each document that has no value.
fn first_or_default<T: Copy>(column: &Vec<Option<T>>, default: T) -> (r: Vec<T>)
    ensures
        r@ == filled(column@, default),
{
    let mut r: Vec<T> = Vec::new();
    let mut i: usize = 0;
    while i < column.len()
        invariant
            i <= column.len(),
            r@ == filled(column@.take(i as int), default),
        decreases column.len() - i,
    {
        let value = match column[i] {
            Some(value) => value,
            None => default,
        };
        r.push(value);
        i = i + 1;
        assert(column@.take(i as int) =~= column@.take(i - 1).push(column@[i - 1]));
        assert(r@ =~= filled(column@.take(i as int), default));
    }
    assert(column@.take(i as int) =~= column@);
    r
}

impl FastColumns {
    /// The column that stands for the field: of its columns the first one in the order texts,
    /// unsigned, signed and fractional numbers, truth values, dates. A document without a value
    /// counts as zero, as false, or as the earliest date.
    pub open spec fn chosen(self) -> Option<FFView> {
        if self.text is Some {
            Some(FFView::Text { ords: self.text->0.ords(), terms: self.text->0.terms() })
        } else if self.unsigned is Some {
            Some(FFView::U64(filled(self.unsigned->0@, 0)))
        } else if self.signed is Some {
            Some(FFView::I64(filled(self.signed->0@, 0)))
        } else if self.fraction is Some {
            Some(FFView::F64(filled(self.fraction->0@, 0)))
        } else if self.boolean is Some {
            Some(FFView::Bool(filled(self.boolean->0@, false)))
        } else if self.date is Some {
            Some(FFView::Date(filled(self.date->0@, i64::MIN)))
        } else {
            None
        }
    }
}

/// What is said of a field that has no column.
pub open spec fn missing_text(field_name: Seq<char>) -> Seq<char> {
    "`"@ + field_name + "` is missing or is not configured as a fast field"@
}

impl FFView {
    /// The document has a value in the column.
    pub open spec fn has(self, doc: u32) -> bool {
        match self {
            FFView::Text { ords, .. } => doc < ords.len() && ords[doc as int].len() > 0,
            FFView::I64(column) => doc < column.len(),
            FFView::F64(column) => doc < column.len(),
            FFView::U64(column) => doc < column.len(),
            FFView::Bool(column) => doc < column.len(),
            FFView::Date(column) => doc < column.len(),
        }
    }

    /// The value of a document: of its texts, the first.
    pub open spec fn value(self, doc: u32) -> ValueView {
        match self {
            FFView::Text { ords, terms } => ValueView::Str(terms[ords[doc as int][0]]),
            FFView::I64(column) => ValueView::I64(column[doc as int]),
            FFView::F64(column) => ValueView::F64(column[doc as int]),
            FFView::U64(column) => ValueView::U64(column[doc as int]),
            FFView::Bool(column) => ValueView::Bool(column[doc as int]),
            FFView::Date(column) => ValueView::Date(column[doc as int]),
        }
    }

    /// The value of a document, or the ordinal of its first text.
    pub open spec fn value_fast(self, doc: u32) -> ValueView {
        match self {
            FFView::Text { ords, .. } => ValueView::U64(ords[doc as int][0]),
            _ => self.value(doc),
        }
    }
}

impl FFType {
    /// Constructs the proper [`FFType`] for the field of this name, which should be a known field
    /// name in the index, from the columns that it has; or says that it has none.
    pub fn new(columns: FastColumns, field_name: &str) -> (r: Result<Self, String>)
        ensures
            match r {
                Ok(column) => columns.chosen() == Some(column@),
                Err(text) => columns.chosen() is None && text@ == missing_text(field_name@),
            },
    {
        if let Some(column) = columns.text {
            Ok(FFType::Text(column))
        } else if let Some(column) = columns.unsigned {
            Ok(FFType::U64(first_or_default(&column, 0)))
        } else if let Some(column) = columns.signed {
            Ok(FFType::I64(first_or_default(&column, 0)))
        } else if let Some(column) = columns.fraction {
            Ok(FFType::F64(first_or_default(&column, 0)))
        } else if let Some(column) = columns.boolean {
            Ok(FFType::Bool(first_or_default(&column, false)))
        } else if let Some(column) = columns.date {
            Ok(FFType::Date(first_or_default(&column, i64::MIN)))
        } else {
            let named = joined("`", field_name);
            Err(joined(named.as_str(), "` is missing or is not configured as a fast field"))
        }
    }

    /// Whether the document has a value in the column.
    pub fn has(&self, doc: u32) -> (r: bool)
        ensures
            r == self@.has(doc),
    {
        match self {
            FFType::Text(column) => {
                (doc as usize) < column.ords.len() && column.ords[doc as usize].len() > 0
            },
            FFType::I64(column) => (doc as usize) < column.len(),
            FFType::F64(column) => (doc as usize) < column.len(),
            FFType::U64(column) => (doc as usize) < column.len(),
            FFType::Bool(column) => (doc as usize) < column.len(),
            FFType::Date(column) => (doc as usize) < column.len(),
        }
    }

    /// Given a document, what is its "fast field" value?
    pub fn value(&self, doc: u32) -> (r: TantivyValue)
        requires
            self@.has(doc),
        ensures
            r@ == self@.value(doc),
    {
        match self {
            FFType::Text(column) => {
                proof {
                    use_type_invariant(column);
                    assert(column.ords()[doc as int].len() > 0);
                }
                let ord: u64 = column.ords[doc as usize][0];
                match column.terms.get(&ord) {
                    Some(term) => TantivyValue::Str(term.clone()),
                    None => vstd::pervasive::unreached(),
                }
            },
            FFType::I64(column) => TantivyValue::I64(column[doc as usize]),
            FFType::F64(column) => TantivyValue::F64(column[doc as usize]),
            FFType::U64(column) => TantivyValue::U64(column[doc as usize]),
            FFType::Bool(column) => TantivyValue::Bool(column[doc as usize]),
            FFType::Date(column) => TantivyValue::Date(column[doc as usize]),
        }
    }

    /// Given a document, what is its "fast field" value? In the case of a text field, we don't
    /// reconstruct the text, and instead return the ordinal of the term: that's enough to do a
    /// tie-break quickly.
    pub fn value_fast(&self, doc: u32) -> (r: TantivyValue)
        requires
            self@.has(doc),
        ensures
            r@ == self@.value_fast(doc),
    {
        match self {
            FFType::Text(column) => TantivyValue::U64(column.ords[doc as usize][0]),
            other => other.value(doc),
        }
    }

    /// Given a document, what is its unsigned "fast field" value? If this isn't
    /// [`FFType::U64`], there is none.
    pub fn as_u64(&self, doc: u32) -> (r: Option<u64>)
        requires
            self@ is U64 ==> self@.has(doc),
        ensures
            r == match self@ {
                FFView::U64(column) => Some(column[doc as int]),
                _ => None,
            },
    {
        if let FFType::U64(column) = self {
            Some(column[doc as usize])
        } else {
            None
        }
    }
}

/// The ordinals of a text column tell its texts apart: two documents of a column have the same
/// fast value exactly if they have the same value, as long as no two ordinals stand for one term.
pub proof fn law_fast_values_agree(column: FFView, doc: u32, other: u32)
    requires
        column.has(doc),
        column.has(other),
        column matches FFView::Text { ords, terms } ==> all_named(ords, terms)
            && terms.is_injective(),
    ensures
        column.value_fast(doc) == column.value_fast(other) <==> column.value(doc) == column.value(
            other,
        ),
{
    if let FFView::Text { ords, terms } = column {
        assert(terms.contains_key(ords[doc as int][0]));
        assert(terms.contains_key(ords[other as int][0]));
    }
}

/// The value of a document is the very one that the column holds for it, and a document has one
/// exactly if the column reaches so far. Of texts, it is the term of the first ordinal, and a
/// document has one exactly if it has an ordinal. The fast value is that ordinal, or the value.
pub proof fn law_values_are_those_of_the_column(column: FFView, doc: u32)
    ensures
        match column {
            FFView::I64(held) => {
                &&& column.has(doc) <==> doc < held.len()
                &&& column.value(doc) == ValueView::I64(held[doc as int])
                &&& column.value_fast(doc) == ValueView::I64(held[doc as int])
            },
            FFView::F64(held) => {
                &&& column.has(doc) <==> doc < held.len()
                &&& column.value(doc) == ValueView::F64(held[doc as int])
                &&& column.value_fast(doc) == ValueView::F64(held[doc as int])
            },
            FFView::U64(held) => {
                &&& column.has(doc) <==> doc < held.len()
                &&& column.value(doc) == ValueView::U64(held[doc as int])
                &&& column.value_fast(doc) == ValueView::U64(held[doc as int])
            },
            FFView::Bool(held) => {
                &&& column.has(doc) <==> doc < held.len()
                &&& column.value(doc) == ValueView::Bool(held[doc as int])
                &&& column.value_fast(doc) == ValueView::Bool(held[doc as int])
            },
            FFView::Date(held) => {
                &&& column.has(doc) <==> doc < held.len()
                &&& column.value(doc) == ValueView::Date(held[doc as int])
                &&& column.value_fast(doc) == ValueView::Date(held[doc as int])
            },
            FFView::Text { ords, terms } => {
                &&& column.has(doc) <==> doc < ords.len() && ords[doc as int].len() > 0
                &&& column.value(doc) == ValueView::Str(terms[ords[doc as int][0]])
                &&& column.value_fast(doc) == ValueView::U64(ords[doc as int][0])
            },
        },
{
}

/// Two documents with different entries in a column other than of texts have different values.
pub proof fn law_different_entries_have_different_values(column: FFView, doc: u32, other: u32)
    ensures
        match column {
            FFView::I64(held) => column.value(doc) == column.value(other) <==> held[doc as int]
                == held[other as int],
            FFView::F64(held) => column.value(doc) == column.value(other) <==> held[doc as int]
                == held[other as int],
            FFView::U64(held) => column.value(doc) == column.value(other) <==> held[doc as int]
                == held[other as int],
            FFView::Bool(held) => column.value(doc) == column.value(other) <==> held[doc as int]
                == held[other as int],
            FFView::Date(held) => column.value(doc) == column.value(other) <==> held[doc as int]
                == held[other as int],
            FFView::Text { .. } => true,
        },
{
}

/// A column is viewed as what it holds.
pub proof fn law_columns_are_viewed_whole(column: FFType)
    ensures
        match column {
            FFType::Text(held) => column@ == (FFView::Text {
                ords: held.ords(),
                terms: held.terms(),
            }),
            FFType::I64(held) => column@ == FFView::I64(held@),
            FFType::F64(held) => column@ == FFView::F64(held@),
            FFType::U64(held) => column@ == FFView::U64(held@),
            FFType::Bool(held) => column@ == FFView::Bool(held@),
            FFType::Date(held) => column@ == FFView::Date(held@),
        },
{
}

/// A text column holds the ordinals and the terms that it was made of, each as it is.
pub proof fn law_texts_are_viewed_whole(ords: Vec<Vec<u64>>, terms: HashMap<u64, String>)
    ensures
        ords_view(ords).len() == ords@.len(),
        forall|doc: int|
            0 <= doc < ords@.len() ==> #[trigger] ords_view(ords)[doc] == ords@[doc]@,
        terms_view(terms).dom() == terms@.dom(),
        forall|ord: u64| #[trigger]
            terms@.contains_key(ord) ==> terms_view(terms)[ord] == terms@[ord]@,
{
    assert(terms_view(terms).dom() =~= terms@.dom());
}

/// One more document does no harm to a text column exactly if it has no ordinal, or its first one
/// has a term; and no document at all does none.
pub proof fn law_first_ordinals_have_terms(
    ords: Seq<Seq<u64>>,
    terms: Map<u64, Seq<char>>,
    more: Seq<u64>,
)
    ensures
        all_named(Seq::empty(), terms),
        all_named(ords.push(more), terms) <==> all_named(ords, terms) && (more.len() == 0
            || terms.contains_key(more[0])),
{
    let longer = ords.push(more);
    if all_named(longer, terms) {
        assert forall|doc: int|
            0 <= doc < ords.len() && (#[trigger] ords[doc]).len() > 0 implies terms.contains_key(
            ords[doc][0],
        ) by {
            assert(longer[doc] == ords[doc]);
        }
        assert(longer[ords.len() as int] == more);
    }
    if all_named(ords, terms) && (more.len() == 0 || terms.contains_key(more[0])) {
        assert forall|doc: int|
            0 <= doc < longer.len() && (#[trigger] longer[doc]).len() > 0 implies
            terms.contains_key(longer[doc][0]) by {
            if doc < ords.len() {
                assert(longer[doc] == ords[doc]);
            }
        }
    }
}

/// Which column stands for a field, and what it holds for each document. Texts come first, then
/// unsigned, signed and fractional numbers, truth values, and dates. A document keeps the value
/// that it has; one that has none counts as zero, as false, or as the earliest date. Only a field
/// without any column has none that stands for it.
pub proof fn law_first_column_stands_for_the_field(columns: FastColumns)
    ensures
        columns.text matches Some(held) ==> columns.chosen() == Some(
            FFView::Text { ords: held.ords(), terms: held.terms() },
        ),
        columns.text is None ==> (columns.unsigned matches Some(held) ==> {
            &&& columns.chosen() matches Some(FFView::U64(column)) && column.len() == held@.len()
                && forall|doc: int|
                0 <= doc < held@.len() ==> #[trigger] column[doc] == match held@[doc] {
                    Some(value) => value,
                    None => 0u64,
                }
        }),
        columns.text is None && columns.unsigned is None ==> (columns.signed matches Some(held)
            ==> {
            &&& columns.chosen() matches Some(FFView::I64(column)) && column.len() == held@.len()
                && forall|doc: int|
                0 <= doc < held@.len() ==> #[trigger] column[doc] == match held@[doc] {
                    Some(value) => value,
                    None => 0i64,
                }
        }),
        columns.text is None && columns.unsigned is None && columns.signed is None ==> (
        columns.fraction matches Some(held) ==> {
            &&& columns.chosen() matches Some(FFView::F64(column)) && column.len() == held@.len()
                && forall|doc: int|
                0 <= doc < held@.len() ==> #[trigger] column[doc] == match held@[doc] {
                    Some(value) => value,
                    None => 0u64,
                }
        }),
        columns.text is None && columns.unsigned is None && columns.signed is None
            && columns.fraction is None ==> (columns.boolean matches Some(held) ==> {
            &&& columns.chosen() matches Some(FFView::Bool(column)) && column.len() == held@.len()
                && forall|doc: int|
                0 <= doc < held@.len() ==> #[trigger] column[doc] == match held@[doc] {
                    Some(value) => value,
                    None => false,
                }
        }),
        columns.text is None && columns.unsigned is None && columns.signed is None
            && columns.fraction is None && columns.boolean is None ==> (columns.date matches Some(
            held,
        ) ==> {
            &&& columns.chosen() matches Some(FFView::Date(column)) && column.len() == held@.len()
                && forall|doc: int|
                0 <= doc < held@.len() ==> #[trigger] column[doc] == match held@[doc] {
                    Some(value) => value,
                    None => i64::MIN,
                }
        }),
        columns.chosen() is None <==> columns.text is None && columns.unsigned is None
            && columns.signed is None && columns.fraction is None && columns.boolean is None
            && columns.date is None,
{
}

/// Who asks for a field without a column is told its name.
pub proof fn law_missing_columns_are_explained(field_name: Seq<char>)
    ensures
        missing_text(field_name) == "`"@ + field_name
            + "` is missing or is not configured as a fast field"@,
{
}

} // verus!
