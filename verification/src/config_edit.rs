//! Storing the API password hash in the TOML settings file, keeping the rest
//! of the file as it is.

use vstd::prelude::*;

verus! {

#[verifier::external_type_specification]
#[verifier::external_body]
pub struct ExDocumentMut(toml_edit::DocumentMut);

#[verifier::external_type_specification]
#[verifier::external_body]
pub struct ExTomlError(toml_edit::TomlError);

/// Whether `toml_edit` parses `text` as a TOML document.
pub uninterp spec fn toml_document_parses(text: Seq<char>) -> bool;

/// Whether the document `text` has an item under the top-level key `key`.
pub uninterp spec fn toml_has_item(text: Seq<char>, key: Seq<char>) -> bool;

/// Whether the item under the top-level key `key` of the document `text` is
/// a table (a `[key]` table, an implicit or a dotted one; not an inline
/// table).
pub uninterp spec fn toml_item_is_table(text: Seq<char>, key: Seq<char>) -> bool;

/// The string under `key` in the top-level table `table` of the document
/// `text`, if there is such a table and that entry is a string.
pub uninterp spec fn toml_string_at(text: Seq<char>, table: Seq<char>, key: Seq<char>) -> Option<
    Seq<char>,
>;

/// The TOML text that a document renders to: what the document holds.
pub uninterp spec fn toml_rendered(doc: toml_edit::DocumentMut) -> Seq<char>;

/// Whether the documents `a` and `b` both parse and hold the same top-level
/// items and the same strings in their tables.
pub open spec fn same_contents(a: Seq<char>, b: Seq<char>) -> bool {
    &&& toml_document_parses(a)
    &&& toml_document_parses(b)
    &&& forall|k: Seq<char>| #[trigger] toml_has_item(a, k) == toml_has_item(b, k)
    &&& forall|k: Seq<char>| #[trigger] toml_item_is_table(a, k) == toml_item_is_table(b, k)
    &&& forall|t: Seq<char>, k: Seq<char>| #[trigger] toml_string_at(a, t, k) == toml_string_at(b, t, k)
}

/// `text.parse::<toml_edit::DocumentMut>()`. Whether it succeeds is named,
/// as a function of the text; the TOML grammar is not restated. A parsed
/// document renders to text with the same contents, as toml_edit documents
/// are format-preserving.
#[verifier::external_body]
fn parse_document(text: &str) -> (res: Result<toml_edit::DocumentMut, toml_edit::TomlError>)
    ensures
        res is Ok <==> toml_document_parses(text@),
        res matches Ok(doc) ==> same_contents(toml_rendered(doc), text@),
{
    text.parse::<toml_edit::DocumentMut>()
}

/// `doc.entry(key).or_insert(..)` with an empty table as the default: the
/// item under `key`, inserted as an empty table when absent. The result says
/// whether that item is a table. Nothing else changes, as the source of
/// `Table::entry` and `Entry::or_insert` shows.
#[verifier::external_body]
fn entry_or_insert_table(doc: &mut toml_edit::DocumentMut, key: &str) -> (res: bool)
    requires
        toml_document_parses(toml_rendered(*old(doc))),
    ensures
        res == (!toml_has_item(toml_rendered(*old(doc)), key@) || toml_item_is_table(
            toml_rendered(*old(doc)),
            key@,
        )),
        toml_document_parses(toml_rendered(*final(doc))),
        toml_has_item(toml_rendered(*final(doc)), key@),
        toml_item_is_table(toml_rendered(*final(doc)), key@) == res,
        forall|k: Seq<char>|
            k != key@ ==> #[trigger] toml_has_item(toml_rendered(*final(doc)), k) == toml_has_item(
                toml_rendered(*old(doc)),
                k,
            ),
        forall|k: Seq<char>|
            k != key@ ==> #[trigger] toml_item_is_table(toml_rendered(*final(doc)), k)
                == toml_item_is_table(toml_rendered(*old(doc)), k),
        forall|t: Seq<char>, k: Seq<char>|
            #[trigger] toml_string_at(toml_rendered(*final(doc)), t, k) == toml_string_at(
                toml_rendered(*old(doc)),
                t,
                k,
            ),
{
    let item = doc.entry(key).or_insert(toml_edit::Item::Table(toml_edit::Table::new()));
    matches!(item, toml_edit::Item::Table(_))
}

/// `table[key] = toml_edit::value(value)` on the table under `table_key`:
/// the entry now holds the string `value`; nothing else changes.
#[verifier::external_body]
fn set_table_string(doc: &mut toml_edit::DocumentMut, table_key: &str, key: &str, value: &str)
    requires
        toml_document_parses(toml_rendered(*old(doc))),
        toml_item_is_table(toml_rendered(*old(doc)), table_key@),
    ensures
        toml_document_parses(toml_rendered(*final(doc))),
        forall|k: Seq<char>|
            #[trigger] toml_has_item(toml_rendered(*final(doc)), k) == toml_has_item(
                toml_rendered(*old(doc)),
                k,
            ),
        forall|k: Seq<char>|
            #[trigger] toml_item_is_table(toml_rendered(*final(doc)), k) == toml_item_is_table(
                toml_rendered(*old(doc)),
                k,
            ),
        toml_string_at(toml_rendered(*final(doc)), table_key@, key@) == Some(value@),
        forall|t: Seq<char>, k: Seq<char>|
            !(t == table_key@ && k == key@) ==> #[trigger] toml_string_at(
                toml_rendered(*final(doc)),
                t,
                k,
            ) == toml_string_at(toml_rendered(*old(doc)), t, k),
{
    if let Some(table) = doc[table_key].as_table_mut() {
        table[key] = toml_edit::value(value);
    }
}

/// `Table::fmt` on the table under `table_key`: its entries get the default
/// layout; only white space changes, not the contents.
#[verifier::external_body]
fn format_table(doc: &mut toml_edit::DocumentMut, table_key: &str)
    requires
        toml_document_parses(toml_rendered(*old(doc))),
    ensures
        same_contents(toml_rendered(*final(doc)), toml_rendered(*old(doc))),
{
    if let Some(table) = doc[table_key].as_table_mut() {
        table.fmt();
    }
}

/// `doc.to_string()`, the document as TOML text.
#[verifier::external_body]
fn render_document(doc: &toml_edit::DocumentMut) -> (res: String)
    ensures
        res@ == toml_rendered(*doc),
{
    doc.to_string()
}

/// Why the settings file could not be updated.
#[derive(Debug)]
pub enum ConfigEditError {
    /// The file is not a TOML document.
    Toml(toml_edit::TomlError),
}

/// Whether `after` is `before` with the string `hash` stored as
/// `password_hash` in its `api` table: every other string and every other
/// top-level item unchanged.
pub open spec fn password_hash_stored(before: Seq<char>, after: Seq<char>, hash: Seq<char>) -> bool {
    &&& toml_document_parses(after)
    &&& toml_has_item(after, "api"@)
    &&& toml_item_is_table(after, "api"@)
    &&& toml_string_at(after, "api"@, "password_hash"@) == Some(hash)
    &&& forall|k: Seq<char>| k != "api"@ ==> #[trigger] toml_has_item(after, k) == toml_has_item(before, k)
    &&& forall|k: Seq<char>|
        k != "api"@ ==> #[trigger] toml_item_is_table(after, k) == toml_item_is_table(before, k)
    &&& forall|t: Seq<char>, k: Seq<char>|
        !(t == "api"@ && k == "password_hash"@) ==> #[trigger] toml_string_at(after, t, k)
            == toml_string_at(before, t, k)
}

/// The settings text `content` with `password_hash = hash` in its `api`
/// table, which is created when absent. When `api` holds something other
/// than a table, the contents are kept as they are. Fails exactly when
/// `content` is not TOML.
pub fn with_password_hash(content: &str, hash: &str) -> (res: Result<String, ConfigEditError>)
    ensures
        res is Ok <==> toml_document_parses(content@),
        res matches Ok(t) ==> (if !toml_has_item(content@, "api"@) || toml_item_is_table(
            content@,
            "api"@,
        ) {
            password_hash_stored(content@, t@, hash@)
        } else {
            same_contents(t@, content@)
        }),
{
    let mut doc = match parse_document(content) {
        Ok(doc) => doc,
        Err(e) => {
            return Err(ConfigEditError::Toml(e));
        },
    };
    let ghost before = toml_rendered(doc);
    if entry_or_insert_table(&mut doc, "api") {
        set_table_string(&mut doc, "api", "password_hash", hash);
        format_table(&mut doc, "api");
    }
    let out = render_document(&doc);
    proof {
        assert(same_contents(before, content@));
    }
    Ok(out)
}

} // verus!
