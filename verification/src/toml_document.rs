//! The `toml_edit` crate, which reads and rewrites manifests and keeps their
//! comments and layout: its types, and its functions under the contracts that
//! the rest of the library relies on. None of these contracts is proved.

use vstd::prelude::*;
use crate::tree::Node;

verus! {

/// `toml_edit::Document`, a TOML document with its comments and layout.
/// Nothing of what is inside is known here.
#[verifier::external_type_specification]
#[verifier::external_body]
pub struct ExManifestDocument(toml_edit::Document);

/// `toml_edit::Item`, an entry of a document: a value, a table, an array of
/// tables, or nothing.
#[verifier::external_type_specification]
#[verifier::external_body]
pub struct ExManifestItem(toml_edit::Item);

/// `toml_edit::Decor`, what surrounds a value on its line: the blanks before
/// it, and the blanks and the comment after it.
#[verifier::external_type_specification]
#[verifier::external_body]
pub struct ExManifestDecor(toml_edit::Decor);

/// `toml_edit::TomlError`, the error of reading a document.
#[verifier::external_type_specification]
#[verifier::external_body]
pub struct ExManifestError(toml_edit::TomlError);

/// The document that `toml_edit` reads from `raw`; `None` where it reports an
/// error.
pub uninterp spec fn parsed_manifest(raw: Seq<char>) -> Option<toml_edit::Document>;

/// Whether the root of a document is a table. It is so of every document that
/// has been read from text, and it stays so under the assignments made here;
/// the functions that go through the root table panic where it is not.
pub uninterp spec fn has_table_root(doc: toml_edit::Document) -> bool;

/// What a document holds, as a tree. An entry counts where `get` finds it.
pub uninterp spec fn document_tree(doc: toml_edit::Document) -> Node;

/// What an item of a document holds, as a tree.
pub uninterp spec fn item_tree(item: toml_edit::Item) -> Node;

/// The item that `get` finds under `key` in the root table of a document.
pub uninterp spec fn document_entry(doc: toml_edit::Document, key: Seq<char>) -> Option<
    toml_edit::Item,
>;

/// The item that `get` finds under `key` in an item.
pub uninterp spec fn item_entry(item: toml_edit::Item, key: Seq<char>) -> Option<toml_edit::Item>;

/// The decoration of the value that an item holds; `None` where the item holds
/// no value.
pub uninterp spec fn item_decoration(item: toml_edit::Item) -> Option<toml_edit::Decor>;

/// The document after the assignment `doc[table][key] = value(text)`.
pub uninterp spec fn edited(
    doc: toml_edit::Document,
    table: Seq<char>,
    key: Seq<char>,
    text: Seq<char>,
) -> toml_edit::Document;

/// The document after the assignment to `doc[table][key]` of the string `text`
/// with the decoration `decor`.
pub uninterp spec fn edited_within(
    doc: toml_edit::Document,
    table: Seq<char>,
    key: Seq<char>,
    text: Seq<char>,
    decor: toml_edit::Decor,
) -> toml_edit::Document;

/// The text that `to_string` gives for a document.
pub uninterp spec fn rendered(doc: toml_edit::Document) -> Seq<char>;

/// `str::parse::<toml_edit::Document>`. The contract gives the outcome a name,
/// `parsed_manifest`, and says that the root of a document that has been read
/// is a table: the parser starts from an empty table and fills it.
#[verifier::external_body]
pub(crate) fn parse_manifest(raw: &str) -> (r: Result<toml_edit::Document, toml_edit::TomlError>)
    ensures
        match r {
            Ok(doc) => parsed_manifest(raw@) == Some(doc) && has_table_root(doc),
            Err(_) => parsed_manifest(raw@) is None,
        },
{
    raw.parse::<toml_edit::Document>()
}

/// `toml_edit::Table::get` on the root table of a document, which panics
/// where the root is no table: `requires` leaves that out. The contract gives
/// the item that is found a name, `document_entry`, and says that it is the
/// entry under `key` where the document has one, and nothing otherwise.
#[verifier::external_body]
pub(crate) fn document_get<'a>(doc: &'a toml_edit::Document, key: &str) -> (r: Option<
    &'a toml_edit::Item,
>)
    requires
        has_table_root(*doc),
    ensures
        match r {
            Some(found) => {
                &&& document_entry(*doc, key@) == Some(*found)
                &&& document_tree(*doc).child(key@) == Some(item_tree(*found))
            },
            None => {
                &&& document_entry(*doc, key@) is None
                &&& document_tree(*doc).child(key@) is None
            },
        },
{
    doc.get(key)
}

/// `toml_edit::Item::get` with a string for the index. The contract gives the
/// item that is found a name, `item_entry`, and says that it is the entry
/// under `key` where the item is a table, of either form, that has one, and
/// nothing otherwise.
#[verifier::external_body]
pub(crate) fn item_get<'a>(item: &'a toml_edit::Item, key: &str) -> (r: Option<
    &'a toml_edit::Item,
>)
    ensures
        match r {
            Some(found) => {
                &&& item_entry(*item, key@) == Some(*found)
                &&& item_tree(*item).child(key@) == Some(item_tree(*found))
            },
            None => {
                &&& item_entry(*item, key@) is None
                &&& item_tree(*item).child(key@) is None
            },
        },
{
    item.get(key)
}

/// `toml_edit::Item::as_str`. The contract says that it gives the text where
/// the item is a string, and nothing otherwise.
#[verifier::external_body]
pub(crate) fn item_as_str<'a>(item: &'a toml_edit::Item) -> (r: Option<&'a str>)
    ensures
        match r {
            Some(text) => item_tree(*item).text() == Some(text@),
            None => item_tree(*item).text() is None,
        },
{
    item.as_str()
}

/// `toml_edit::Item::as_array`, the values of the array handed out in their
/// order, each as its text where `toml_edit::Value::as_str` gives one. The
/// contract says that it gives the elements where the item is an array, and
/// nothing otherwise.
#[verifier::external_body]
pub(crate) fn item_as_array(item: &toml_edit::Item) -> (r: Option<Vec<Option<String>>>)
    ensures
        r.deep_view() == item_tree(*item).elements(),
{
    item.as_array().map(
        |array| array.iter().map(|value| value.as_str().map(String::from)).collect(),
    )
}

/// `toml_edit::Value::decor` of the value that `toml_edit::Item::as_value`
/// gives for an item, handed out as a copy. The contract gives it a name,
/// `item_decoration`.
#[verifier::external_body]
pub(crate) fn item_decor(item: &toml_edit::Item) -> (r: Option<toml_edit::Decor>)
    ensures
        r == item_decoration(*item),
{
    item.as_value().map(|value| value.decor().clone())
}

/// `toml_edit::Item::is_table_like`. The contract says that it holds of
/// tables of either form and of nothing else.
#[verifier::external_body]
pub(crate) fn item_is_table_like(item: &toml_edit::Item) -> (r: bool)
    ensures
        r == (item_tree(*item) is Table),
{
    item.is_table_like()
}

/// The assignment `doc[table][key] = toml_edit::value(text)`. Indexing goes
/// through the root table, makes the entry `table` where the document has
/// none, and panics where the root or that entry is no table of either form:
/// `requires` leaves that out. The contract gives the document that results a
/// name, `edited`, and says what it then holds: under `table` a table with the
/// entries that were there and `text` under `key`, and beside it what the
/// document held before. The root stays a table.
#[verifier::external_body]
pub(crate) fn set_text(doc: &mut toml_edit::Document, table: &str, key: &str, text: &str)
    requires
        has_table_root(*old(doc)),
        document_tree(*old(doc)).can_take(table@),
    ensures
        *final(doc) == edited(*old(doc), table@, key@, text@),
        document_tree(*final(doc)) == document_tree(*old(doc)).with_text(table@, key@, text@),
        has_table_root(*final(doc)),
{
    doc[table][key] = toml_edit::value(text);
}

/// The same assignment of a string that is given the decoration `decor`
/// first, through `toml_edit::Value::decor_mut`: the value that is assigned is
/// rendered between what `decor` holds. It panics where `set_text` does. The
/// contract gives the document that results a name, `edited_within`, and says
/// of what it holds what the contract of `set_text` says.
#[verifier::external_body]
pub(crate) fn set_text_within(
    doc: &mut toml_edit::Document,
    table: &str,
    key: &str,
    text: &str,
    decor: toml_edit::Decor,
)
    requires
        has_table_root(*old(doc)),
        document_tree(*old(doc)).can_take(table@),
    ensures
        *final(doc) == edited_within(*old(doc), table@, key@, text@, decor),
        document_tree(*final(doc)) == document_tree(*old(doc)).with_text(table@, key@, text@),
        has_table_root(*final(doc)),
{
    let mut value = toml_edit::Value::from(text);
    *value.decor_mut() = decor;
    doc[table][key] = toml_edit::Item::Value(value);
}

/// `to_string` of a document, which goes through the root table and panics
/// where the root is no table: `requires` leaves that out. The contract gives
/// the text a name, `rendered`.
#[verifier::external_body]
pub(crate) fn render(doc: &toml_edit::Document) -> (r: String)
    requires
        has_table_root(*doc),
    ensures
        r@ == rendered(*doc),
{
    doc.to_string()
}

} // verus!
