//! Format-preserving edits of the shared TOML configuration file, through
//! `toml_edit`.
//!
//! A document is seen through two names: its top-level entries, each marked
//! with whether it is a standard `[table]`, and the string values that stand
//! one level below a top-level table or inline table.

use vstd::prelude::*;

verus! {

#[verifier::external_type_specification]
#[verifier::external_body]
pub struct ExDocumentMut(toml_edit::DocumentMut);

#[verifier::external_type_specification]
#[verifier::external_body]
pub struct ExTomlError(toml_edit::TomlError);

/// The top-level entries of `doc` that hold an item: key ↦ whether the
/// item is a standard table (`[key]`), as `Item::as_table_mut` sees it.
pub uninterp spec fn toml_sections(doc: toml_edit::DocumentMut) -> Map<Seq<char>, bool>;

/// The string values of `doc` one level down: `(section, key)` ↦ the
/// string, where `section` is a top-level table or inline table, as
/// `doc.get(section).and_then(|d| d.get(key)).and_then(|v| v.as_str())`
/// finds it.
pub uninterp spec fn toml_strings(doc: toml_edit::DocumentMut) -> Map<(Seq<char>, Seq<char>), Seq<char>>;

/// The top-level entries of `doc` that hold an item: key ↦ the text that
/// the item's `Display` writes (for a table, its values; for an array of
/// tables such as `[[monitor]]`, its tables).
pub uninterp spec fn toml_item_texts(doc: toml_edit::DocumentMut) -> Map<Seq<char>, Seq<char>>;

/// The entries of `doc` one level down: `(section, key)` ↦ the text that
/// the item's `Display` writes, where `section` is a top-level table or
/// inline table and `key` holds an item in it (a value of any kind or a
/// nested table).
pub uninterp spec fn toml_entry_texts(doc: toml_edit::DocumentMut) -> Map<(Seq<char>, Seq<char>), Seq<char>>;

/// What `toml_edit` makes of `text`: `None` when it refuses the text, else
/// the four views (`toml_sections` and `toml_strings`, then
/// `toml_item_texts` and `toml_entry_texts`) of the document it parses to.
pub uninterp spec fn toml_parsed(text: Seq<char>) -> Option<(
    (Map<Seq<char>, bool>, Map<(Seq<char>, Seq<char>), Seq<char>>),
    (Map<Seq<char>, Seq<char>>, Map<(Seq<char>, Seq<char>), Seq<char>>),
)>;

/// The table flags and string values of a document, side by side.
pub type TomlView = (Map<Seq<char>, bool>, Map<(Seq<char>, Seq<char>), Seq<char>>);

/// The texts of the top-level items and of the entries one level down.
pub type TomlLayout = (Map<Seq<char>, Seq<char>>, Map<(Seq<char>, Seq<char>), Seq<char>>);

/// `doc` seen through `toml_sections` and `toml_strings`.
pub open spec fn doc_view(doc: toml_edit::DocumentMut) -> TomlView {
    (toml_sections(doc), toml_strings(doc))
}

/// `doc` seen through `toml_item_texts` and `toml_entry_texts`.
pub open spec fn doc_layout(doc: toml_edit::DocumentMut) -> TomlLayout {
    (toml_item_texts(doc), toml_entry_texts(doc))
}

/// Everything outside the edit is kept: every top-level item outside
/// `sections` writes the same text, and so does every entry other than
/// those in `edited`, unless it lies in one of `sections` that did not
/// exist before (`before_sections`).
pub open spec fn layout_kept(
    before: TomlLayout,
    after: TomlLayout,
    before_sections: Map<Seq<char>, bool>,
    sections: Set<Seq<char>>,
    edited: Set<(Seq<char>, Seq<char>)>,
) -> bool {
    &&& forall|k: Seq<char>| #![trigger after.0.get(k)] !sections.contains(k) ==> after.0.get(k) == before.0.get(k)
    &&& forall|sk: (Seq<char>, Seq<char>)| #![trigger after.1.get(sk)]
        !edited.contains(sk) && (before_sections.contains_key(sk.0) || !sections.contains(sk.0))
            ==> after.1.get(sk) == before.1.get(sk)
}

/// Two edits in a row keep what each keeps, when the first adds sections
/// and removes none.
pub proof fn lemma_layout_kept_trans(
    a: TomlLayout,
    b: TomlLayout,
    c: TomlLayout,
    sa: Map<Seq<char>, bool>,
    sb: Map<Seq<char>, bool>,
    sec1: Set<Seq<char>>,
    ed1: Set<(Seq<char>, Seq<char>)>,
    sec2: Set<Seq<char>>,
    ed2: Set<(Seq<char>, Seq<char>)>,
)
    requires
        layout_kept(a, b, sa, sec1, ed1),
        layout_kept(b, c, sb, sec2, ed2),
        forall|k: Seq<char>| sa.contains_key(k) ==> #[trigger] sb.contains_key(k),
    ensures
        layout_kept(a, c, sa, sec1.union(sec2), ed1.union(ed2)),
{
    assert forall|k: Seq<char>| !sec1.union(sec2).contains(k) implies #[trigger] c.0.get(k) == a.0.get(k) by {
        assert(c.0.get(k) == b.0.get(k));
        assert(b.0.get(k) == a.0.get(k));
    }
    assert forall|sk: (Seq<char>, Seq<char>)|
        !ed1.union(ed2).contains(sk) && (sa.contains_key(sk.0) || !sec1.union(sec2).contains(sk.0))
        implies #[trigger] c.1.get(sk) == a.1.get(sk) by {
        assert(c.1.get(sk) == b.1.get(sk));
        assert(b.1.get(sk) == a.1.get(sk));
    }
}

/// Whether `text` is a TOML document that `toml_edit` accepts.
pub open spec fn toml_parses(text: Seq<char>) -> bool {
    toml_parsed(text) is Some
}

/// The text that `toml_edit` writes for `doc`.
pub uninterp spec fn toml_text(doc: toml_edit::DocumentMut) -> Seq<char>;

/// Calls `<toml_edit::DocumentMut as FromStr>::from_str`. The contract
/// claims that the outcome is a function of the text, named `toml_parsed`:
/// an error exactly where that name is `None`, else a document whose views
/// are the ones it names; and that the empty text gives a document with no
/// entries.
#[verifier::external_body]
pub(crate) fn toml_parse(text: &str) -> (r: Result<toml_edit::DocumentMut, toml_edit::TomlError>)
    ensures
        match r {
            Ok(d) => toml_parsed(text@) == Some((
                (toml_sections(d), toml_strings(d)),
                (toml_item_texts(d), toml_entry_texts(d)),
            )),
            Err(_) => toml_parsed(text@) is None,
        },
        text@.len() == 0 ==> match r {
            Ok(d) => toml_sections(d).is_empty() && toml_strings(d).is_empty(),
            Err(_) => false,
        },
{
    text.parse::<toml_edit::DocumentMut>()
}

/// Calls `Display::to_string` on a `toml_edit::TomlError`. Nothing is
/// claimed of the message.
#[verifier::external_body]
pub(crate) fn toml_error_message(e: &toml_edit::TomlError) -> String {
    e.to_string()
}

/// Calls `Display::to_string` on the document. The contract claims only
/// that the text is the value named `toml_text` of the document.
#[verifier::external_body]
pub(crate) fn toml_render(doc: &toml_edit::DocumentMut) -> (r: String)
    ensures
        r@ == toml_text(*doc),
{
    doc.to_string()
}

/// Calls `toml_edit::Table::get` on the document root and tests for an
/// item. The contract claims that the answer is whether `key` is among the
/// top-level entries.
#[verifier::external_body]
pub(crate) fn toml_has_section(doc: &toml_edit::DocumentMut, key: &str) -> (r: bool)
    ensures
        r == toml_sections(*doc).contains_key(key@),
{
    doc.get(key).is_some()
}

/// Calls `toml_edit::Table::insert` on the document root with a new empty
/// `toml_edit::Table`. The contract claims that `key` then names a standard
/// table with no string values below it, and that every other top-level
/// item and every entry of another section is kept.
#[verifier::external_body]
pub(crate) fn toml_insert_table(doc: &mut toml_edit::DocumentMut, key: &str)
    ensures
        toml_sections(*final(doc)) == toml_sections(*old(doc)).insert(key@, true),
        toml_strings(*final(doc)) == toml_strings(*old(doc)).filter_keys(
            |sk: (Seq<char>, Seq<char>)| sk.0 != key@,
        ),
        forall|k: Seq<char>| k != key@ ==> #[trigger] toml_item_texts(*final(doc)).get(k)
            == toml_item_texts(*old(doc)).get(k),
        forall|sk: (Seq<char>, Seq<char>)| sk.0 != key@ ==> #[trigger] toml_entry_texts(*final(doc)).get(sk)
            == toml_entry_texts(*old(doc)).get(sk),
{
    doc.insert(key, toml_edit::Item::Table(toml_edit::Table::new()));
}

/// Calls `IndexMut` on the document root, `toml_edit::Item::as_table_mut`,
/// then `IndexMut` on that table with `toml_edit::value(value)`. The
/// contract claims that this succeeds exactly when `section` is a standard
/// table, that it then sets the one string `(section, key)` and keeps
/// every other top-level item and every other entry, and that otherwise
/// nothing visible changes.
#[verifier::external_body]
pub(crate) fn toml_set_string(
    doc: &mut toml_edit::DocumentMut,
    section: &str,
    key: &str,
    value: &str,
) -> (r: bool)
    ensures
        r == (toml_sections(*old(doc)).contains_key(section@) && toml_sections(*old(doc))[section@]),
        toml_sections(*final(doc)) == toml_sections(*old(doc)),
        r ==> toml_strings(*final(doc)) == toml_strings(*old(doc)).insert((section@, key@), value@),
        !r ==> toml_strings(*final(doc)) == toml_strings(*old(doc)),
        forall|k: Seq<char>| k != section@ ==> #[trigger] toml_item_texts(*final(doc)).get(k)
            == toml_item_texts(*old(doc)).get(k),
        forall|sk: (Seq<char>, Seq<char>)| sk != (section@, key@) ==> #[trigger] toml_entry_texts(*final(doc)).get(sk)
            == toml_entry_texts(*old(doc)).get(sk),
        !r ==> doc_layout(*final(doc)) == doc_layout(*old(doc)),
{
    match doc[section].as_table_mut() {
        Some(t) => {
            t[key] = toml_edit::value(value);
            true
        },
        None => false,
    }
}

/// Calls `IndexMut` on the document root, `toml_edit::Item::as_table_mut`
/// and `toml_edit::Table::remove`. The contract claims that, when `section`
/// is a standard table, the entry `(section, key)` is gone afterwards and
/// all else is kept; otherwise nothing visible changes.
#[verifier::external_body]
pub(crate) fn toml_remove_key(doc: &mut toml_edit::DocumentMut, section: &str, key: &str)
    ensures
        toml_sections(*final(doc)) == toml_sections(*old(doc)),
        (toml_sections(*old(doc)).contains_key(section@) && toml_sections(*old(doc))[section@])
            ==> toml_strings(*final(doc)) == toml_strings(*old(doc)).remove((section@, key@)),
        !(toml_sections(*old(doc)).contains_key(section@) && toml_sections(*old(doc))[section@])
            ==> toml_strings(*final(doc)) == toml_strings(*old(doc)),
        forall|k: Seq<char>| k != section@ ==> #[trigger] toml_item_texts(*final(doc)).get(k)
            == toml_item_texts(*old(doc)).get(k),
        (toml_sections(*old(doc)).contains_key(section@) && toml_sections(*old(doc))[section@])
            ==> toml_entry_texts(*final(doc)) == toml_entry_texts(*old(doc)).remove((section@, key@)),
        !(toml_sections(*old(doc)).contains_key(section@) && toml_sections(*old(doc))[section@])
            ==> doc_layout(*final(doc)) == doc_layout(*old(doc)),
{
    if let Some(t) = doc[section].as_table_mut() {
        t.remove(key);
    }
}

/// Calls `toml_edit::Table::get`, `toml_edit::Item::get` and
/// `toml_edit::Item::as_str`. The contract claims that the result is the
/// string `(section, key)` of the document, if there is one.
#[verifier::external_body]
pub(crate) fn toml_get_string(doc: &toml_edit::DocumentMut, section: &str, key: &str) -> (r: Option<String>)
    ensures
        match r {
            Some(s) => toml_strings(*doc).contains_key((section@, key@)) && toml_strings(*doc)[(section@, key@)] == s@,
            None => !toml_strings(*doc).contains_key((section@, key@)),
        },
{
    doc.get(section).and_then(|d| d.get(key)).and_then(|v| v.as_str()).map(String::from)
}

/// A standard table named `key` exists when the section is absent or
/// already such a table.
pub open spec fn section_usable(sections: Map<Seq<char>, bool>, key: Seq<char>) -> bool {
    !sections.contains_key(key) || sections[key]
}

} // verus!
