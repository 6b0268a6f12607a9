use crate::decimal::{decimal_text, format_decimal};
use crate::parser::{data, Datum, FieldValue, KeyedField};
use vstd::prelude::*;

verus! {

/// A value that has a text form in a record.
pub trait FieldText {
    /// The text of the value: an integer in base ten, a text as it is.
    spec fn text(&self) -> Seq<char>;

    /// Writes the value as text.
    fn to_text(&self) -> (s: String)
        ensures
            s@ == self.text(),
    ;
}

impl FieldText for u8 {
    open spec fn text(&self) -> Seq<char> {
        decimal_text(*self as int)
    }

    fn to_text(&self) -> (s: String) {
        format_decimal(*self as i128)
    }
}

impl FieldText for u16 {
    open spec fn text(&self) -> Seq<char> {
        decimal_text(*self as int)
    }

    fn to_text(&self) -> (s: String) {
        format_decimal(*self as i128)
    }
}

impl FieldText for u32 {
    open spec fn text(&self) -> Seq<char> {
        decimal_text(*self as int)
    }

    fn to_text(&self) -> (s: String) {
        format_decimal(*self as i128)
    }
}

impl FieldText for u64 {
    open spec fn text(&self) -> Seq<char> {
        decimal_text(*self as int)
    }

    fn to_text(&self) -> (s: String) {
        format_decimal(*self as i128)
    }
}

impl FieldText for i32 {
    open spec fn text(&self) -> Seq<char> {
        decimal_text(*self as int)
    }

    fn to_text(&self) -> (s: String) {
        format_decimal(*self as i128)
    }
}

impl FieldText for String {
    open spec fn text(&self) -> Seq<char> {
        self@
    }

    fn to_text(&self) -> (s: String) {
        self.clone()
    }
}

/// The text of a field value.
pub open spec fn datum_text(d: Datum) -> Seq<char> {
    match d {
        Datum::Number(v) => decimal_text(v),
        Datum::Text(t) => t,
    }
}

impl FieldText for FieldValue {
    open spec fn text(&self) -> Seq<char> {
        datum_text(self@)
    }

    fn to_text(&self) -> (s: String) {
        match self {
            FieldValue::Number(v) => format_decimal(*v),
            FieldValue::Text(t) => t.clone(),
        }
    }
}

/// The texts of a list of field values.
pub open spec fn data_texts(values: Seq<Datum>) -> Seq<Seq<char>> {
    values.map_values(|d: Datum| datum_text(d))
}

/// `buffer` with `text` appended, after a single space where `buffer` is not
/// empty.
pub open spec fn pushed(buffer: Seq<char>, text: Seq<char>) -> Seq<char> {
    if buffer.len() > 0 {
        buffer + seq![' '] + text
    } else {
        text
    }
}

/// The line that holds `fields` in order, each appended as [`pushed`] says.
/// Where no field is empty, this is the fields joined by single spaces.
pub open spec fn spaced(fields: Seq<Seq<char>>) -> Seq<char>
    decreases fields.len(),
{
    if fields.len() == 0 {
        Seq::empty()
    } else {
        pushed(spaced(fields.drop_last()), fields.last())
    }
}

/// Builds one line of space-separated values.
pub struct SpaceSeparatedSerializer {
    buffer: String,
}

impl View for SpaceSeparatedSerializer {
    type V = Seq<char>;

    closed spec fn view(&self) -> Seq<char> {
        self.buffer@
    }
}

impl SpaceSeparatedSerializer {
    /// A serializer that holds the empty line.
    pub fn new() -> (r: SpaceSeparatedSerializer)
        ensures
            r@ == Seq::<char>::empty(),
    {
        SpaceSeparatedSerializer { buffer: String::new() }
    }

    /// Appends the text of `value`, after a single space where the line is
    /// not empty.
    pub fn push_value<T: FieldText>(&mut self, value: &T)
        ensures
            final(self)@ == pushed(old(self)@, value.text()),
    {
        if !self.buffer.as_str().is_empty() {
            proof {
                reveal_strlit(" ");
            }
            self.buffer.append(" ");
            assert(self.buffer@ =~= old(self)@ + seq![' ']);
        }
        let text = value.to_text();
        self.buffer.append(text.as_str());
    }

    /// The line built so far.
    pub fn get_buffer(&self) -> (r: String)
        ensures
            r@ == self@,
    {
        self.buffer.clone()
    }
}

/// Writes `values` as one line, in order.
pub fn write_line(values: &Vec<FieldValue>) -> (line: String)
    ensures
        line@ == spaced(data_texts(data(values@))),
{
    let mut serializer = SpaceSeparatedSerializer::new();
    let ghost all = data_texts(data(values@));
    let mut k: usize = 0;
    while k < values.len()
        invariant
            k <= values.len(),
            all == data_texts(data(values@)),
            serializer@ == spaced(all.take(k as int)),
        decreases values.len() - k,
    {
        proof {
            assert(all.take(k + 1).drop_last() =~= all.take(k as int));
            assert(all.take(k + 1).last() == values[k as int].text());
        }
        serializer.push_value(&values[k]);
        k = k + 1;
    }
    assert(all.take(k as int) =~= all);
    serializer.get_buffer()
}

/// `buffer` with the header of a section called `name` appended.
pub open spec fn with_header(buffer: Seq<char>, name: Seq<char>) -> Seq<char> {
    buffer + seq!['['] + name + seq![']']
}

/// `buffer` with the entry `key=text` appended, on a line of its own where
/// `buffer` is not empty.
pub open spec fn with_entry(buffer: Seq<char>, key: Seq<char>, text: Seq<char>) -> Seq<char> {
    if buffer.len() > 0 {
        buffer + seq!['\n'] + key + seq!['='] + text
    } else {
        key + seq!['='] + text
    }
}

/// The keys of a list of fields.
pub open spec fn keys(layout: Seq<KeyedField>) -> Seq<Seq<char>> {
    layout.map_values(|f: KeyedField| f.key@)
}

/// The text of a section called `name` that holds under each of `keys` the
/// text at the same position of `texts`: the header, then one entry on each
/// further line, with no line end after the last.
pub open spec fn section_text(name: Seq<char>, keys: Seq<Seq<char>>, texts: Seq<Seq<char>>) -> Seq<
    char,
>
    decreases keys.len(),
{
    if keys.len() == 0 || texts.len() == 0 {
        with_header(Seq::empty(), name)
    } else {
        with_entry(section_text(name, keys.drop_last(), texts.drop_last()), keys.last(), texts.last())
    }
}

/// Builds the text of one section.
pub struct IniEntrySerializer {
    buffer: String,
}

impl View for IniEntrySerializer {
    type V = Seq<char>;

    closed spec fn view(&self) -> Seq<char> {
        self.buffer@
    }
}

impl IniEntrySerializer {
    /// A serializer that holds the empty text.
    pub fn new() -> (r: IniEntrySerializer)
        ensures
            r@ == Seq::<char>::empty(),
    {
        IniEntrySerializer { buffer: String::new() }
    }

    /// Appends the header of a section named by the text of `value`.
    pub fn add_section<T: FieldText>(&mut self, value: &T)
        ensures
            final(self)@ == with_header(old(self)@, value.text()),
    {
        proof {
            reveal_strlit("[");
            reveal_strlit("]");
        }
        self.buffer.append("[");
        let text = value.to_text();
        self.buffer.append(text.as_str());
        self.buffer.append("]");
        assert(self.buffer@ =~= with_header(old(self)@, value.text()));
    }

    /// Appends the entry of `key` with the text of `value`, on a line of its
    /// own where the text is not empty.
    pub fn add_entry<T: FieldText>(&mut self, key: &str, value: &T)
        ensures
            final(self)@ == with_entry(old(self)@, key@, value.text()),
    {
        proof {
            reveal_strlit("\n");
            reveal_strlit("=");
        }
        if !self.buffer.as_str().is_empty() {
            self.buffer.append("\n");
        }
        self.buffer.append(key);
        self.buffer.append("=");
        let text = value.to_text();
        self.buffer.append(text.as_str());
        assert(self.buffer@ =~= with_entry(old(self)@, key@, value.text()));
    }

    /// The text built so far.
    pub fn get_buffer(&self) -> (r: String)
        ensures
            r@ == self@,
    {
        self.buffer.clone()
    }
}

/// Writes a section called `name` that holds each value under the key of the
/// field at the same position of `layout`.
pub fn write_section(name: &String, layout: &Vec<KeyedField>, values: &Vec<FieldValue>) -> (out:
    String)
    requires
        layout.len() == values.len(),
    ensures
        out@ == section_text(name@, keys(layout@), data_texts(data(values@))),
{
    let mut serializer = IniEntrySerializer::new();
    serializer.add_section(name);
    let ghost all_keys = keys(layout@);
    let ghost all = data_texts(data(values@));
    let mut k: usize = 0;
    while k < values.len()
        invariant
            k <= values.len(),
            layout.len() == values.len(),
            all_keys == keys(layout@),
            all == data_texts(data(values@)),
            serializer@ == section_text(name@, all_keys.take(k as int), all.take(k as int)),
        decreases values.len() - k,
    {
        proof {
            assert(all.take(k + 1).drop_last() =~= all.take(k as int));
            assert(all_keys.take(k + 1).drop_last() =~= all_keys.take(k as int));
            assert(all.take(k + 1).last() == values[k as int].text());
            assert(all_keys.take(k + 1).last() == layout[k as int].key@);
        }
        serializer.add_entry(layout[k].key, &values[k]);
        k = k + 1;
    }
    proof {
        assert(all.take(k as int) =~= all);
        assert(all_keys.take(k as int) =~= all_keys);
    }
    serializer.get_buffer()
}

/// A record that has a text form.
pub trait StringSerializableStructure {
    /// The text of the record.
    spec fn serialized(&self) -> Seq<char>;

    /// Writes the record as text.
    fn serialize(&self) -> (s: String)
        ensures
            s@ == self.serialized(),
    ;
}

} // verus!
