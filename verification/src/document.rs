use ini::{Ini, ParseError};
use vstd::prelude::*;

verus! {

/// `ini::Ini`, a parsed document: sections in the order in which they were
/// first met, each with its entries.
#[verifier::external_type_specification]
#[verifier::external_body]
pub struct ExIni(Ini);

/// `ini::ParseError`, which says where a text stopped being a document.
#[verifier::external_type_specification]
#[verifier::external_body]
pub struct ExParseError(ParseError);

/// The section keys that a document holds, each once, in the order in which
/// `Ini::sections` yields them. The key `None` is that of the general
/// section, which holds the entries that stand before any header.
pub uninterp spec fn section_names(document: Ini) -> Seq<Option<Seq<char>>>;

/// For each section and key under which `Ini::get_from` finds a value, that
/// value: the first one in the first section of that name.
pub uninterp spec fn entries(document: Ini) -> Map<(Option<Seq<char>>, Seq<char>), Seq<char>>;

/// What `Ini::load_from_str` makes of a text: the section names and the
/// entries of the document, or `None` where the text is no document.
pub uninterp spec fn loaded(text: Seq<char>) -> Option<
    (Seq<Option<Seq<char>>>, Map<(Option<Seq<char>>, Seq<char>), Seq<char>>),
>;

/// The text of an optional string.
pub open spec fn optional_text(name: Option<String>) -> Option<Seq<char>> {
    match name {
        Some(n) => Some(n@),
        None => None,
    }
}

/// Calls `Ini::load_from_str`. Not proved: that the outcome, and the
/// sections and entries of the document, depend on the text alone, which is
/// what gives them the name [`loaded`].
#[verifier::external_body]
pub(crate) fn load_document(text: &str) -> (r: Result<Ini, ParseError>)
    ensures
        match r {
            Ok(document) => loaded(text@) == Some((section_names(document), entries(document))),
            Err(_) => loaded(text@) is None,
        },
{
    Ini::load_from_str(text)
}

/// Calls `Ini::sections` and copies what it yields. Not proved: that these
/// are the document's section keys, in its order.
#[verifier::external_body]
pub(crate) fn document_sections(document: &Ini) -> (names: Vec<Option<String>>)
    ensures
        names@.len() == section_names(*document).len(),
        forall|i: int|
            0 <= i < names@.len() ==> optional_text(#[trigger] names@[i]) == section_names(
                *document,
            )[i],
{
    document.sections().map(|name| name.map(String::from)).collect()
}

/// Calls `Ini::get_from` with a named section and copies the value found.
/// Not proved: that it finds exactly what [`entries`] holds.
#[verifier::external_body]
pub(crate) fn document_value(document: &Ini, section: &str, key: &str) -> (r: Option<String>)
    ensures
        match r {
            Some(v) => entries(*document).contains_key((Some(section@), key@)) && entries(
                *document,
            )[(Some(section@), key@)] == v@,
            None => !entries(*document).contains_key((Some(section@), key@)),
        },
{
    document.get_from(Some(section), key).map(String::from)
}

} // verus!
