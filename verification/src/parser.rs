use crate::decimal::{decimal_in, parse_decimal};
use crate::document::{
    document_sections, document_value, entries, load_document, loaded, optional_text, section_names,
};
use crate::text::{split_words, texts, words};
use ini::{Ini, ParseError};
use vstd::prelude::*;

verus! {

/// Why a line of space-separated values gave no record.
#[derive(Debug, PartialEq, Eq)]
pub enum SpaceSeparatedParserError {
    /// The token of the named field is not a value of the field's type.
    InvalidCast(String),
    /// The line has fewer tokens than the record needs; the count is that of
    /// the tokens found.
    MissingAtIndex(usize),
}

/// The mathematical form of a [`SpaceSeparatedParserError`].
pub enum LineFault {
    InvalidCast(Seq<char>),
    MissingAtIndex(nat),
}

impl View for SpaceSeparatedParserError {
    type V = LineFault;

    open spec fn view(&self) -> LineFault {
        match self {
            SpaceSeparatedParserError::InvalidCast(name) => LineFault::InvalidCast(name@),
            SpaceSeparatedParserError::MissingAtIndex(count) => LineFault::MissingAtIndex(
                *count as nat,
            ),
        }
    }
}

/// A token could not be read as a value of the type asked for.
#[derive(Debug, Clone, Copy, PartialEq, Eq)]
pub struct CastError;

/// An integer type that a token can be read as.
pub trait FieldCast: Sized {
    /// The value that `text` denotes in this type, if it denotes one: an
    /// optional sign, then decimal digits only, within the type's range.
    spec fn cast(text: Seq<char>) -> Option<Self>;

    /// Reads `text` as a value of this type.
    fn cast_text(text: &str) -> (r: Option<Self>)
        ensures
            r == Self::cast(text@),
    ;
}

impl FieldCast for u8 {
    open spec fn cast(text: Seq<char>) -> Option<u8> {
        match decimal_in(text, false, 0, u8::MAX as int) {
            Some(v) => Some(v as u8),
            None => None,
        }
    }

    fn cast_text(text: &str) -> (r: Option<u8>) {
        match parse_decimal(text, false, 0, u8::MAX as i128) {
            Some(v) => Some(v as u8),
            None => None,
        }
    }
}

impl FieldCast for u16 {
    open spec fn cast(text: Seq<char>) -> Option<u16> {
        match decimal_in(text, false, 0, u16::MAX as int) {
            Some(v) => Some(v as u16),
            None => None,
        }
    }

    fn cast_text(text: &str) -> (r: Option<u16>) {
        match parse_decimal(text, false, 0, u16::MAX as i128) {
            Some(v) => Some(v as u16),
            None => None,
        }
    }
}

impl FieldCast for u32 {
    open spec fn cast(text: Seq<char>) -> Option<u32> {
        match decimal_in(text, false, 0, u32::MAX as int) {
            Some(v) => Some(v as u32),
            None => None,
        }
    }

    fn cast_text(text: &str) -> (r: Option<u32>) {
        match parse_decimal(text, false, 0, u32::MAX as i128) {
            Some(v) => Some(v as u32),
            None => None,
        }
    }
}

impl FieldCast for u64 {
    open spec fn cast(text: Seq<char>) -> Option<u64> {
        match decimal_in(text, false, 0, u64::MAX as int) {
            Some(v) => Some(v as u64),
            None => None,
        }
    }

    fn cast_text(text: &str) -> (r: Option<u64>) {
        match parse_decimal(text, false, 0, u64::MAX as i128) {
            Some(v) => Some(v as u64),
            None => None,
        }
    }
}

impl FieldCast for i32 {
    open spec fn cast(text: Seq<char>) -> Option<i32> {
        match decimal_in(text, true, i32::MIN as int, i32::MAX as int) {
            Some(v) => Some(v as i32),
            None => None,
        }
    }

    fn cast_text(text: &str) -> (r: Option<i32>) {
        match parse_decimal(text, true, i32::MIN as i128, i32::MAX as i128) {
            Some(v) => Some(v as i32),
            None => None,
        }
    }
}

/// One token of a line.
#[derive(Debug, PartialEq, Eq)]
pub struct StringParserResult {
    pub value: String,
}

impl View for StringParserResult {
    type V = Seq<char>;

    open spec fn view(&self) -> Seq<char> {
        self.value@
    }
}

impl StringParserResult {
    /// The token's text, unchanged.
    pub fn get_value(&self) -> (r: &String)
        ensures
            r@ == self@,
    {
        &self.value
    }

    /// The token read as a value of type `T`.
    pub fn get_value_as<T: FieldCast>(&self) -> (r: Result<T, CastError>)
        ensures
            r == match T::cast(self@) {
                Some(v) => Ok::<T, CastError>(v),
                None => Err(CastError),
            },
    {
        match T::cast_text(self.value.as_str()) {
            Some(v) => Ok(v),
            None => Err(CastError),
        }
    }
}

/// The texts of a list of tokens.
pub open spec fn token_texts(tokens: Seq<StringParserResult>) -> Seq<Seq<char>> {
    tokens.map_values(|t: StringParserResult| t@)
}

/// Splits `line` on runs of whitespace into its tokens, in the order in which
/// they appear.
pub fn get_space_separated_values(line: &String) -> (tokens: Vec<StringParserResult>)
    ensures
        token_texts(tokens@) == words(line@),
{
    let parts = split_words(line.as_str());
    let mut tokens: Vec<StringParserResult> = Vec::new();
    let mut i: usize = 0;
    while i < parts.len()
        invariant
            i <= parts.len(),
            tokens.len() == i,
            forall|k: int| 0 <= k < i ==> (#[trigger] tokens[k])@ == parts[k]@,
        decreases parts.len() - i,
    {
        tokens.push(StringParserResult { value: parts[i].clone() });
        i = i + 1;
    }
    assert(token_texts(tokens@) =~= texts(parts@));
    tokens
}

/// A record that can be read from a line of space-separated values.
pub trait SpaceSeparatedParseable<T> {
    /// Whether `r` is what the tokens `tokens` of a line give.
    spec fn line_result(tokens: Seq<Seq<char>>, r: Result<T, SpaceSeparatedParserError>) -> bool;

    /// Reads a record from `line`.
    fn from_line(line: &String) -> (r: Result<T, SpaceSeparatedParserError>)
        ensures
            Self::line_result(words(line@), r),
    ;
}

/// The type that a field is read as.
#[derive(Debug, Clone, Copy, PartialEq, Eq)]
pub enum FieldKind {
    U8,
    U16,
    U32,
    U64,
    I32,
    /// The text itself, unchanged.
    Text,
}

/// The mathematical form of a [`FieldValue`]: an integer, or a text.
pub enum Datum {
    Number(int),
    Text(Seq<char>),
}

/// The value of one field, as read or as about to be written.
#[derive(Debug, PartialEq, Eq)]
pub enum FieldValue {
    Number(i128),
    Text(String),
}

impl View for FieldValue {
    type V = Datum;

    open spec fn view(&self) -> Datum {
        match self {
            FieldValue::Number(v) => Datum::Number(*v as int),
            FieldValue::Text(t) => Datum::Text(t@),
        }
    }
}

impl FieldKind {
    /// Whether values of this kind may be negative.
    pub open spec fn signed(self) -> bool {
        self is I32
    }

    /// The least value of this kind; zero for a text.
    pub open spec fn least(self) -> int {
        match self {
            FieldKind::I32 => i32::MIN as int,
            _ => 0,
        }
    }

    /// The greatest value of this kind; zero for a text.
    pub open spec fn greatest(self) -> int {
        match self {
            FieldKind::U8 => u8::MAX as int,
            FieldKind::U16 => u16::MAX as int,
            FieldKind::U32 => u32::MAX as int,
            FieldKind::U64 => u64::MAX as int,
            FieldKind::I32 => i32::MAX as int,
            FieldKind::Text => 0,
        }
    }

    /// Whether `d` is a value of this kind.
    pub open spec fn admits(self, d: Datum) -> bool {
        match d {
            Datum::Number(v) => !(self is Text) && self.least() <= v <= self.greatest(),
            Datum::Text(_) => self is Text,
        }
    }

    /// What `text` denotes as a value of this kind: itself for a text, and
    /// for an integer kind the integer that it spells, if it spells one
    /// within the kind's range.
    pub open spec fn reads(self, text: Seq<char>) -> Option<Datum> {
        match self {
            FieldKind::Text => Some(Datum::Text(text)),
            _ => match decimal_in(text, self.signed(), self.least(), self.greatest()) {
                Some(v) => Some(Datum::Number(v)),
                None => None,
            },
        }
    }

    /// Reads `token` as a value of this kind.
    pub fn read(&self, token: &StringParserResult) -> (r: Option<FieldValue>)
        ensures
            match r {
                Some(v) => self.reads(token@) == Some(v@),
                None => self.reads(token@) is None,
            },
    {
        match self {
            FieldKind::U8 => match token.get_value_as::<u8>() {
                Ok(v) => Some(FieldValue::Number(v as i128)),
                Err(_) => None,
            },
            FieldKind::U16 => match token.get_value_as::<u16>() {
                Ok(v) => Some(FieldValue::Number(v as i128)),
                Err(_) => None,
            },
            FieldKind::U32 => match token.get_value_as::<u32>() {
                Ok(v) => Some(FieldValue::Number(v as i128)),
                Err(_) => None,
            },
            FieldKind::U64 => match token.get_value_as::<u64>() {
                Ok(v) => Some(FieldValue::Number(v as i128)),
                Err(_) => None,
            },
            FieldKind::I32 => match token.get_value_as::<i32>() {
                Ok(v) => Some(FieldValue::Number(v as i128)),
                Err(_) => None,
            },
            FieldKind::Text => Some(FieldValue::Text(token.get_value().clone())),
        }
    }
}

/// The integer that `text` denotes as a value of `kind`; zero where it
/// denotes none.
#[verifier::opaque]
pub open spec fn number_of(kind: FieldKind, text: Seq<char>) -> int {
    match kind.reads(text) {
        Some(Datum::Number(v)) => v,
        _ => 0,
    }
}

impl FieldValue {
    /// The integer that this value is.
    pub(crate) fn as_number(&self) -> (v: i128)
        requires
            self@ is Number,
        ensures
            self@ == Datum::Number(v as int),
    {
        match self {
            FieldValue::Number(v) => *v,
            FieldValue::Text(_) => 0,
        }
    }

    /// The text that this value is.
    pub(crate) fn as_text(&self) -> (t: String)
        requires
            self@ is Text,
        ensures
            self@ == Datum::Text(t@),
    {
        match self {
            FieldValue::Text(t) => t.clone(),
            FieldValue::Number(_) => String::new(),
        }
    }
}

/// One field of a record that is read from a line: the position of its
/// token, the type it is read as, and the name it has in an error.
#[derive(Debug, Clone, Copy, PartialEq, Eq)]
pub struct PositionalField {
    pub index: usize,
    pub kind: FieldKind,
    pub name: &'static str,
}

impl PositionalField {
    /// What this field reads from `tokens`.
    pub open spec fn reads(self, tokens: Seq<Seq<char>>) -> Option<Datum> {
        self.kind.reads(tokens[self.index as int])
    }
}

/// The mathematical form of a list of field values.
pub open spec fn data(values: Seq<FieldValue>) -> Seq<Datum> {
    values.map_values(|v: FieldValue| v@)
}

/// Whether a line of `min_fields` tokens has a token for every field of
/// `layout`.
pub open spec fn layout_fits(layout: Seq<PositionalField>, min_fields: nat) -> bool {
    forall|k: int| 0 <= k < layout.len() ==> (#[trigger] layout[k]).index < min_fields
}

/// The first field of `layout`, from position `from` on, that cannot be read
/// from `tokens`.
pub open spec fn first_unreadable(
    tokens: Seq<Seq<char>>,
    layout: Seq<PositionalField>,
    from: int,
) -> Option<int>
    decreases layout.len() - from,
{
    if from < 0 || from >= layout.len() {
        None
    } else if layout[from].reads(tokens) is None {
        Some(from)
    } else {
        first_unreadable(tokens, layout, from + 1)
    }
}

/// The values of the fields of `layout`, in the order of `layout`, where all
/// of them can be read from `tokens`.
pub open spec fn values_read(tokens: Seq<Seq<char>>, layout: Seq<PositionalField>) -> Seq<Datum> {
    Seq::new(layout.len(), |k: int| layout[k].reads(tokens).unwrap())
}

/// What reading the fields of `layout` from `tokens` gives: too few tokens
/// are reported with their count; else the first field in the order of
/// `layout` that cannot be read is reported by its name; else every field
/// has its value.
pub open spec fn line_outcome(
    tokens: Seq<Seq<char>>,
    layout: Seq<PositionalField>,
    min_fields: nat,
) -> Result<Seq<Datum>, LineFault> {
    if tokens.len() < min_fields {
        Err(LineFault::MissingAtIndex(tokens.len()))
    } else {
        match first_unreadable(tokens, layout, 0) {
            Some(k) => Err(LineFault::InvalidCast(layout[k].name@)),
            None => Ok(values_read(tokens, layout)),
        }
    }
}

/// Reads the fields of `layout` from `tokens`, in the order of `layout`, and
/// stops at the first that cannot be read.
pub fn read_tokens(
    tokens: &Vec<StringParserResult>,
    layout: &Vec<PositionalField>,
    min_fields: usize,
) -> (r: Result<Vec<FieldValue>, SpaceSeparatedParserError>)
    requires
        layout_fits(layout@, min_fields as nat),
    ensures
        match r {
            Ok(values) => line_outcome(token_texts(tokens@), layout@, min_fields as nat) == Ok::<
                Seq<Datum>,
                LineFault,
            >(data(values@)),
            Err(e) => line_outcome(token_texts(tokens@), layout@, min_fields as nat) == Err::<
                Seq<Datum>,
                LineFault,
            >(e@),
        },
        r matches Ok(values) ==> values.len() == layout.len() && forall|k: int|
            0 <= k < layout.len() ==> (#[trigger] layout[k]).reads(token_texts(tokens@)) == Some(
                values[k]@,
            ),
{
    if tokens.len() < min_fields {
        return Err(SpaceSeparatedParserError::MissingAtIndex(tokens.len()));
    }
    let ghost texts = token_texts(tokens@);
    let mut values: Vec<FieldValue> = Vec::new();
    let mut k: usize = 0;
    while k < layout.len()
        invariant
            k <= layout.len(),
            texts == token_texts(tokens@),
            tokens.len() >= min_fields,
            layout_fits(layout@, min_fields as nat),
            values.len() == k,
            first_unreadable(texts, layout@, 0) == first_unreadable(texts, layout@, k as int),
            forall|j: int| 0 <= j < k ==> layout[j].reads(texts) == Some((#[trigger] values[j])@),
        decreases layout.len() - k,
    {
        let field = &layout[k];
        assert(texts[field.index as int] == tokens[field.index as int]@);
        match field.kind.read(&tokens[field.index]) {
            Some(v) => {
                values.push(v);
            },
            None => {
                return Err(SpaceSeparatedParserError::InvalidCast(field.name.to_owned()));
            },
        }
        k = k + 1;
    }
    assert(data(values@) =~= values_read(texts, layout@));
    Ok(values)
}

/// Splits `line` into tokens and reads the fields of `layout` from them.
pub fn read_line(line: &String, layout: &Vec<PositionalField>, min_fields: usize) -> (r: Result<
    Vec<FieldValue>,
    SpaceSeparatedParserError,
>)
    requires
        layout_fits(layout@, min_fields as nat),
    ensures
        match r {
            Ok(values) => line_outcome(words(line@), layout@, min_fields as nat) == Ok::<
                Seq<Datum>,
                LineFault,
            >(data(values@)),
            Err(e) => line_outcome(words(line@), layout@, min_fields as nat) == Err::<
                Seq<Datum>,
                LineFault,
            >(e@),
        },
        r matches Ok(values) ==> values.len() == layout.len() && forall|k: int|
            0 <= k < layout.len() ==> (#[trigger] layout[k]).reads(words(line@)) == Some(
                values[k]@,
            ),
{
    let tokens = get_space_separated_values(line);
    read_tokens(&tokens, layout, min_fields)
}

/// Why the text of a section gave no record.
#[derive(Debug, PartialEq, Eq)]
pub enum IniEntryParserError {
    /// The value under the named key is not a value of the field's type.
    InvalidCast(String),
    /// The section has no value under the named key.
    MissingKey(String),
    /// The text is not a well-formed document.
    InvalidIni,
    /// The document has no section header.
    InvalidIniNoSection,
}

/// The mathematical form of an [`IniEntryParserError`].
pub enum SectionFault {
    InvalidCast(Seq<char>),
    MissingKey(Seq<char>),
    InvalidIni,
    InvalidIniNoSection,
}

impl View for IniEntryParserError {
    type V = SectionFault;

    open spec fn view(&self) -> SectionFault {
        match self {
            IniEntryParserError::InvalidCast(key) => SectionFault::InvalidCast(key@),
            IniEntryParserError::MissingKey(key) => SectionFault::MissingKey(key@),
            IniEntryParserError::InvalidIni => SectionFault::InvalidIni,
            IniEntryParserError::InvalidIniNoSection => SectionFault::InvalidIniNoSection,
        }
    }
}

/// A record that can be read from the text of a section.
pub trait IniEntryParseable<T> {
    /// Whether `r` is what a text gives that loads as `document`.
    spec fn section_result(
        document: Option<(Seq<Option<Seq<char>>>, Map<(Option<Seq<char>>, Seq<char>), Seq<char>>)>,
        r: Result<T, IniEntryParserError>,
    ) -> bool;

    /// Reads a record from the text `section`.
    fn from_section_string(section: &String) -> (r: Result<T, IniEntryParserError>)
        ensures
            Self::section_result(loaded(section@), r),
    ;
}

/// One section of a document: its name, and the value under each of its
/// keys. The order of the keys in the text is no part of it.
pub struct Section {
    pub name: Seq<char>,
    pub values: Map<Seq<char>, Seq<char>>,
}

/// The first name in `names` that is that of a section with a header.
pub open spec fn first_named(names: Seq<Option<Seq<char>>>) -> Option<Seq<char>>
    decreases names.len(),
{
    if names.len() == 0 {
        None
    } else if names[0] is Some {
        names[0]
    } else {
        first_named(names.drop_first())
    }
}

/// The section called `name` among the entries of a document.
pub open spec fn section_named(
    all: Map<(Option<Seq<char>>, Seq<char>), Seq<char>>,
    name: Seq<char>,
) -> Section {
    Section {
        name,
        values: Map::new(
            |key: Seq<char>| all.contains_key((Some(name), key)),
            |key: Seq<char>| all[(Some(name), key)],
        ),
    }
}

/// The section that a document is read through: the first one with a
/// header. A text that is no document, and a document without a header, are
/// reported.
pub open spec fn section_chosen(
    document: Option<(Seq<Option<Seq<char>>>, Map<(Option<Seq<char>>, Seq<char>), Seq<char>>)>,
) -> Result<Section, SectionFault> {
    match document {
        None => Err(SectionFault::InvalidIni),
        Some((names, all)) => match first_named(names) {
            None => Err(SectionFault::InvalidIniNoSection),
            Some(name) => Ok(section_named(all, name)),
        },
    }
}

/// The text that `section` holds under `key`; a section without the key is
/// reported by the key.
pub open spec fn entry_text(section: Section, key: Seq<char>) -> Result<Seq<char>, SectionFault> {
    if section.values.contains_key(key) {
        Ok(section.values[key])
    } else {
        Err(SectionFault::MissingKey(key))
    }
}

/// The value of type `T` that `section` holds under `key`; a section without
/// the key, and a text that is no value of the type, are reported by the key.
pub open spec fn entry_as<T: FieldCast>(section: Section, key: Seq<char>) -> Result<
    T,
    SectionFault,
> {
    match entry_text(section, key) {
        Ok(text) => match T::cast(text) {
            Some(v) => Ok(v),
            None => Err(SectionFault::InvalidCast(key)),
        },
        Err(fault) => Err(fault),
    }
}

/// Reads the entries of the first headed section of a document by key.
pub struct IniEntryParser {
    ini: Ini,
    section_name: String,
}

impl View for IniEntryParser {
    type V = Section;

    closed spec fn view(&self) -> Section {
        section_named(entries(self.ini), self.section_name@)
    }
}

impl IniEntryParser {
    /// Chooses the section of a document that was loaded, or reports why
    /// there is none.
    pub fn from_document(document: Result<Ini, ParseError>) -> (r: Result<
        IniEntryParser,
        IniEntryParserError,
    >)
        ensures
            document is Err ==> r is Err && r->Err_0@ == SectionFault::InvalidIni,
            document matches Ok(ini) ==> match r {
                Ok(parser) => section_chosen(Some((section_names(ini), entries(ini)))) == Ok::<
                    Section,
                    SectionFault,
                >(parser@),
                Err(e) => section_chosen(Some((section_names(ini), entries(ini)))) == Err::<
                    Section,
                    SectionFault,
                >(e@),
            },
    {
        match document {
            Err(_) => Err(IniEntryParserError::InvalidIni),
            Ok(ini) => {
                let names = document_sections(&ini);
                let ghost all = section_names(ini);
                let mut i: usize = 0;
                assert(all.skip(0) =~= all);
                while i < names.len()
                    invariant
                        i <= names.len(),
                        document == Ok::<Ini, ParseError>(ini),
                        all == section_names(ini),
                        names@.len() == all.len(),
                        forall|k: int|
                            0 <= k < names@.len() ==> optional_text(#[trigger] names@[k])
                                == all[k],
                        first_named(all) == first_named(all.skip(i as int)),
                    decreases names.len() - i,
                {
                    proof {
                        assert(all.skip(i as int).drop_first() =~= all.skip(i + 1));
                        assert(all.skip(i as int)[0] == all[i as int]);
                    }
                    match &names[i] {
                        Some(name) => {
                            assert(optional_text(names@[i as int]) == Some(name@));
                            return Ok(IniEntryParser { ini, section_name: name.clone() });
                        },
                        None => {},
                    }
                    i = i + 1;
                }
                Err(IniEntryParserError::InvalidIniNoSection)
            },
        }
    }

    /// Loads `value` as a document and chooses its first headed section.
    pub fn new_from_str(value: String) -> (r: Result<IniEntryParser, IniEntryParserError>)
        ensures
            match r {
                Ok(parser) => section_chosen(loaded(value@)) == Ok::<Section, SectionFault>(
                    parser@,
                ),
                Err(e) => section_chosen(loaded(value@)) == Err::<Section, SectionFault>(e@),
            },
    {
        IniEntryParser::from_document(load_document(value.as_str()))
    }

    /// The name of the section, as its header gives it.
    pub fn get_section(&self) -> (r: String)
        ensures
            r@ == self@.name,
    {
        self.section_name.clone()
    }

    /// The name of the section read as a value of type `T`.
    pub fn get_section_as<T: FieldCast>(&self) -> (r: Result<T, CastError>)
        ensures
            r == match T::cast(self@.name) {
                Some(v) => Ok::<T, CastError>(v),
                None => Err(CastError),
            },
    {
        match T::cast_text(self.section_name.as_str()) {
            Some(v) => Ok(v),
            None => Err(CastError),
        }
    }

    /// The value under `entry_key` read as a value of type `T`.
    pub fn get_entry_as<T: FieldCast>(&self, entry_key: &str) -> (r: Result<
        T,
        IniEntryParserError,
    >)
        ensures
            match r {
                Ok(v) => entry_as::<T>(self@, entry_key@) == Ok::<T, SectionFault>(v),
                Err(e) => entry_as::<T>(self@, entry_key@) == Err::<T, SectionFault>(e@),
            },
    {
        match self.get_entry(entry_key) {
            Ok(text) => match T::cast_text(text.as_str()) {
                Some(v) => Ok(v),
                None => Err(IniEntryParserError::InvalidCast(entry_key.to_owned())),
            },
            Err(e) => Err(e),
        }
    }

    /// The value under `entry_key`, unchanged.
    pub fn get_entry(&self, entry_key: &str) -> (r: Result<String, IniEntryParserError>)
        ensures
            match r {
                Ok(v) => entry_text(self@, entry_key@) == Ok::<Seq<char>, SectionFault>(v@),
                Err(e) => entry_text(self@, entry_key@) == Err::<Seq<char>, SectionFault>(e@),
            },
    {
        match document_value(&self.ini, self.section_name.as_str(), entry_key) {
            Some(v) => Ok(v),
            None => Err(IniEntryParserError::MissingKey(entry_key.to_owned())),
        }
    }
}

/// One field of a record that is read from a section: its key, and the type
/// it is read as.
#[derive(Debug, Clone, Copy, PartialEq, Eq)]
pub struct KeyedField {
    pub key: &'static str,
    pub kind: FieldKind,
}

impl KeyedField {
    /// What this field reads from `section`: a section without the key, and
    /// a value that is not of the field's type, are reported by the key.
    pub open spec fn reads(self, section: Section) -> Result<Datum, SectionFault> {
        if !section.values.contains_key(self.key@) {
            Err(SectionFault::MissingKey(self.key@))
        } else {
            match self.kind.reads(section.values[self.key@]) {
                Some(d) => Ok(d),
                None => Err(SectionFault::InvalidCast(self.key@)),
            }
        }
    }
}

/// The first field of `layout`, from position `from` on, that cannot be read
/// from `section`.
pub open spec fn first_failing(section: Section, layout: Seq<KeyedField>, from: int) -> Option<int>
    decreases layout.len() - from,
{
    if from < 0 || from >= layout.len() {
        None
    } else if layout[from].reads(section) is Err {
        Some(from)
    } else {
        first_failing(section, layout, from + 1)
    }
}

/// The values of the fields of `layout`, in the order of `layout`, where all
/// of them can be read from `section`.
pub open spec fn entries_read(section: Section, layout: Seq<KeyedField>) -> Seq<Datum> {
    Seq::new(layout.len(), |k: int| layout[k].reads(section)->Ok_0)
}

/// What reading the fields of `layout` from `section` gives: the report of
/// the first field in the order of `layout` that cannot be read, or else the
/// value of every field.
pub open spec fn section_outcome(section: Section, layout: Seq<KeyedField>) -> Result<
    Seq<Datum>,
    SectionFault,
> {
    match first_failing(section, layout, 0) {
        Some(k) => Err(layout[k].reads(section)->Err_0),
        None => Ok(entries_read(section, layout)),
    }
}

impl IniEntryParser {
    /// Reads one field by its key.
    pub fn read_entry(&self, field: &KeyedField) -> (r: Result<FieldValue, IniEntryParserError>)
        ensures
            match r {
                Ok(v) => field.reads(self@) == Ok::<Datum, SectionFault>(v@),
                Err(e) => field.reads(self@) == Err::<Datum, SectionFault>(e@),
            },
    {
        match field.kind {
            FieldKind::U8 => match self.get_entry_as::<u8>(field.key) {
                Ok(v) => Ok(FieldValue::Number(v as i128)),
                Err(e) => Err(e),
            },
            FieldKind::U16 => match self.get_entry_as::<u16>(field.key) {
                Ok(v) => Ok(FieldValue::Number(v as i128)),
                Err(e) => Err(e),
            },
            FieldKind::U32 => match self.get_entry_as::<u32>(field.key) {
                Ok(v) => Ok(FieldValue::Number(v as i128)),
                Err(e) => Err(e),
            },
            FieldKind::U64 => match self.get_entry_as::<u64>(field.key) {
                Ok(v) => Ok(FieldValue::Number(v as i128)),
                Err(e) => Err(e),
            },
            FieldKind::I32 => match self.get_entry_as::<i32>(field.key) {
                Ok(v) => Ok(FieldValue::Number(v as i128)),
                Err(e) => Err(e),
            },
            FieldKind::Text => match self.get_entry(field.key) {
                Ok(v) => Ok(FieldValue::Text(v)),
                Err(e) => Err(e),
            },
        }
    }

    /// Reads the fields of `layout` by their keys, in the order of `layout`,
    /// and stops at the first that cannot be read.
    pub fn read_entries(&self, layout: &Vec<KeyedField>) -> (r: Result<
        Vec<FieldValue>,
        IniEntryParserError,
    >)
        ensures
            match r {
                Ok(values) => section_outcome(self@, layout@) == Ok::<Seq<Datum>, SectionFault>(
                    data(values@),
                ),
                Err(e) => section_outcome(self@, layout@) == Err::<Seq<Datum>, SectionFault>(e@),
            },
            r matches Ok(values) ==> values.len() == layout.len() && forall|k: int|
                0 <= k < layout.len() ==> (#[trigger] layout[k]).reads(self@) == Ok::<
                    Datum,
                    SectionFault,
                >(values[k]@),
    {
        let mut values: Vec<FieldValue> = Vec::new();
        let mut k: usize = 0;
        while k < layout.len()
            invariant
                k <= layout.len(),
                values.len() == k,
                first_failing(self@, layout@, 0) == first_failing(self@, layout@, k as int),
                forall|j: int|
                    0 <= j < k ==> layout[j].reads(self@) == Ok::<Datum, SectionFault>(
                        (#[trigger] values[j])@,
                    ),
            decreases layout.len() - k,
        {
            match self.read_entry(&layout[k]) {
                Ok(v) => {
                    values.push(v);
                },
                Err(e) => {
                    return Err(e);
                },
            }
            k = k + 1;
        }
        assert(data(values@) =~= entries_read(self@, layout@));
        Ok(values)
    }
}

} // verus!
