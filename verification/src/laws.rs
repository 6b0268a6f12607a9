use crate::decimal::{
    decimal_round_trip, decimal_text, digits_of, digits_of_well_formed, is_digit, sign_len,
};
use crate::parser::{
    entries_read, first_failing, first_unreadable, layout_fits, line_outcome, number_of,
    section_outcome, values_read, Datum, FieldKind, KeyedField, LineFault, PositionalField,
    Section,
};
use crate::serializer::{data_texts, datum_text, spaced};
use crate::text::{is_blank, is_word, words, words_concat, words_of_word};
use vstd::prelude::*;

verus! {

/// A line of words holds exactly these words: splitting what was joined
/// gives the fields back.
pub proof fn words_of_spaced(fields: Seq<Seq<char>>)
    requires
        forall|i: int| 0 <= i < fields.len() ==> is_word(#[trigger] fields[i]),
    ensures
        words(spaced(fields)) == fields,
        fields.len() > 0 ==> spaced(fields).len() > 0,
    decreases fields.len(),
{
    if fields.len() == 0 {
        assert(words(Seq::<char>::empty()) =~= Seq::<Seq<char>>::empty());
        assert(fields =~= Seq::<Seq<char>>::empty());
    } else {
        let init = fields.drop_last();
        let last = fields.last();
        words_of_spaced(init);
        words_of_word(last);
        if init.len() == 0 {
            assert(fields =~= seq![last]);
        } else {
            let tail = seq![' '] + last;
            assert(spaced(fields) =~= spaced(init) + tail);
            words_concat(spaced(init), tail);
            assert(tail.drop_first() =~= last);
            assert(init + seq![last] =~= fields);
        }
    }
}

/// The text of an integer is a word.
pub proof fn decimal_text_is_word(v: int)
    ensures
        is_word(decimal_text(v)),
{
    let text = decimal_text(v);
    if v < 0 {
        let digits = digits_of((-v) as nat);
        digits_of_well_formed((-v) as nat);
        assert forall|i: int| 0 <= i < text.len() implies !is_blank(#[trigger] text[i]) by {
            if i > 0 {
                assert(text[i] == digits[i - 1]);
                assert(is_digit(digits[i - 1]));
            }
        }
    } else {
        digits_of_well_formed(v as nat);
        assert forall|i: int| 0 <= i < text.len() implies !is_blank(#[trigger] text[i]) by {
            assert(is_digit(text[i]));
        }
    }
}

/// Reading the text of a value as its own kind gives the value back.
pub proof fn value_round_trip(kind: FieldKind, d: Datum)
    requires
        kind.admits(d),
    ensures
        kind.reads(datum_text(d)) == Some(d),
{
    match d {
        Datum::Number(v) => {
            decimal_round_trip(v, kind.signed());
        },
        Datum::Text(_) => {},
    }
}

/// Reading the text of an integer as a kind that holds it gives the integer
/// back.
pub proof fn number_round_trip(kind: FieldKind, v: int)
    requires
        !(kind is Text),
        kind.least() <= v <= kind.greatest(),
    ensures
        number_of(kind, decimal_text(v)) == v,
        kind.reads(decimal_text(v)) == Some(Datum::Number(v)),
{
    reveal(number_of);
    value_round_trip(kind, Datum::Number(v));
}

/// A text with a character that is neither a digit nor a sign in front
/// denotes no integer of any kind.
pub proof fn non_numeric_is_unreadable(kind: FieldKind, text: Seq<char>, i: int)
    requires
        !(kind is Text),
        0 <= i < text.len(),
        !is_digit(text[i]),
        i > 0 || (text[0] != '+' && text[0] != '-'),
    ensures
        kind.reads(text) is None,
{
    let skip = sign_len(text, kind.signed());
    let body = text.skip(skip);
    assert(body[i - skip] == text[i]);
}

/// The first field that cannot be read is the least such position; there is
/// none exactly where every field can be read.
pub proof fn first_unreadable_is_least(
    tokens: Seq<Seq<char>>,
    layout: Seq<PositionalField>,
    from: int,
)
    requires
        0 <= from,
    ensures
        match first_unreadable(tokens, layout, from) {
            Some(k) => from <= k < layout.len() && layout[k].reads(tokens) is None && forall|
                j: int,
            |
                from <= j < k ==> (#[trigger] layout[j]).reads(tokens) is Some,
            None => forall|j: int|
                from <= j < layout.len() ==> (#[trigger] layout[j]).reads(tokens) is Some,
        },
    decreases layout.len() - from,
{
    if from < layout.len() && layout[from].reads(tokens) is Some {
        first_unreadable_is_least(tokens, layout, from + 1);
    }
}

/// A line with one token too few is reported with its count, whatever the
/// tokens are; a line with exactly as many tokens as the record needs, every
/// field of which can be read, gives all values.
pub proof fn arity_boundary(
    tokens: Seq<Seq<char>>,
    layout: Seq<PositionalField>,
    min_fields: nat,
)
    ensures
        tokens.len() + 1 == min_fields ==> line_outcome(tokens, layout, min_fields) == Err::<
            Seq<Datum>,
            LineFault,
        >(LineFault::MissingAtIndex((min_fields - 1) as nat)),
        tokens.len() == min_fields && (forall|k: int|
            0 <= k < layout.len() ==> (#[trigger] layout[k]).reads(tokens) is Some)
            ==> line_outcome(tokens, layout, min_fields) == Ok::<Seq<Datum>, LineFault>(
            values_read(tokens, layout),
        ),
{
    first_unreadable_is_least(tokens, layout, 0);
}

/// In a line that can be read, replacing the token of one field by a text
/// that is no value of the field's type makes the reading fail with the name
/// of that field, where no field that is read before it reads the same
/// token.
pub proof fn cast_failure_is_local(
    tokens: Seq<Seq<char>>,
    layout: Seq<PositionalField>,
    min_fields: nat,
    k: int,
    bad: Seq<char>,
)
    requires
        layout_fits(layout, min_fields),
        line_outcome(tokens, layout, min_fields) is Ok,
        0 <= k < layout.len(),
        layout[k].kind.reads(bad) is None,
        forall|j: int| 0 <= j < k ==> (#[trigger] layout[j]).index != layout[k].index,
    ensures
        line_outcome(tokens.update(layout[k].index as int, bad), layout, min_fields) == Err::<
            Seq<Datum>,
            LineFault,
        >(LineFault::InvalidCast(layout[k].name@)),
{
    let changed = tokens.update(layout[k].index as int, bad);
    first_unreadable_is_least(tokens, layout, 0);
    first_unreadable_is_least(changed, layout, 0);
    assert(layout[k].reads(changed) is None);
    assert forall|j: int| 0 <= j < k implies (#[trigger] layout[j]).reads(changed) is Some by {
        assert(changed[layout[j].index as int] == tokens[layout[j].index as int]);
    }
}

/// Reading a line that was written gives each field the value that was
/// written at its position: the values are of the kinds that the fields are
/// read as, and the texts among them are words.
pub proof fn line_round_trip(values: Seq<Datum>, layout: Seq<PositionalField>, min_fields: nat)
    requires
        min_fields <= values.len(),
        forall|k: int|
            0 <= k < layout.len() ==> (#[trigger] layout[k]).index < values.len()
                && layout[k].kind.admits(values[layout[k].index as int]),
        forall|i: int| 0 <= i < values.len() ==> is_word(datum_text(#[trigger] values[i])),
    ensures
        words(spaced(data_texts(values))) == data_texts(values),
        line_outcome(words(spaced(data_texts(values))), layout, min_fields) == Ok::<
            Seq<Datum>,
            LineFault,
        >(Seq::new(layout.len(), |k: int| values[layout[k].index as int])),
{
    let texts = data_texts(values);
    assert forall|i: int| 0 <= i < texts.len() implies is_word(#[trigger] texts[i]) by {
        assert(texts[i] == datum_text(values[i]));
    }
    words_of_spaced(texts);
    assert forall|k: int| 0 <= k < layout.len() implies (#[trigger] layout[k]).reads(texts)
        == Some(values[layout[k].index as int]) by {
        value_round_trip(layout[k].kind, values[layout[k].index as int]);
    }
    first_unreadable_is_least(texts, layout, 0);
    assert(values_read(texts, layout) =~= Seq::new(
        layout.len(),
        |k: int| values[layout[k].index as int],
    ));
}

/// The first field that cannot be read from a section is the least such
/// position; there is none exactly where every field can be read.
pub proof fn first_failing_is_least(section: Section, layout: Seq<KeyedField>, from: int)
    requires
        0 <= from,
    ensures
        match first_failing(section, layout, from) {
            Some(k) => from <= k < layout.len() && layout[k].reads(section) is Err && forall|
                j: int,
            |
                from <= j < k ==> (#[trigger] layout[j]).reads(section) is Ok,
            None => forall|j: int|
                from <= j < layout.len() ==> (#[trigger] layout[j]).reads(section) is Ok,
        },
    decreases layout.len() - from,
{
    if from < layout.len() && layout[from].reads(section) is Ok {
        first_failing_is_least(section, layout, from + 1);
    }
}

/// What is read from a section depends only on what the section holds
/// under the keys of the layout: two sections that hold the same under each
/// of these keys, in whatever order and beside whatever else, give the same.
pub proof fn section_reading_ignores_order(a: Section, b: Section, layout: Seq<KeyedField>)
    requires
        forall|k: int|
            0 <= k < layout.len() ==> a.values.contains_key((#[trigger] layout[k]).key@)
                == b.values.contains_key(layout[k].key@) && (a.values.contains_key(layout[k].key@)
                ==> a.values[layout[k].key@] == b.values[layout[k].key@]),
    ensures
        section_outcome(a, layout) == section_outcome(b, layout),
{
    first_failing_is_least(a, layout, 0);
    first_failing_is_least(b, layout, 0);
    assert forall|k: int| 0 <= k < layout.len() implies (#[trigger] layout[k]).reads(a)
        == layout[k].reads(b) by {}
    match first_failing(a, layout, 0) {
        Some(i) => {
            let j = first_failing(b, layout, 0)->Some_0;
            assert(layout[i].reads(b) is Err);
            assert(layout[j].reads(a) is Err);
            assert(i == j);
        },
        None => {
            assert(first_failing(b, layout, 0) is None);
            assert(entries_read(a, layout) =~= entries_read(b, layout));
        },
    }
}

} // verus!
