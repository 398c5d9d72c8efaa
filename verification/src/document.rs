//! A configuration document as the project file holds it: keys with text
//! values, tables of such keys, and whatever else TOML allows, kept only as
//! "something else".

use vstd::prelude::*;

verus! {

/// A value inside a table of the document.
#[derive(Debug, PartialEq, Eq)]
pub enum Leaf {
    Text(String),
    /// Any value that is not a string.
    Other,
}

/// A value at the top level of the document.
#[derive(Debug, PartialEq, Eq)]
pub enum Item {
    Text(String),
    Table(Vec<(String, Leaf)>),
    /// Any value that is neither a string nor a table.
    Other,
}

/// The top level of a document: its keys and their values.
#[derive(Debug, PartialEq, Eq)]
pub struct Document {
    pub entries: Vec<(String, Item)>,
}

/// A value inside a table, by its contents.
pub enum LeafView {
    Text(Seq<char>),
    Other,
}

/// A value at the top level, by its contents.
pub enum ItemView {
    Text(Seq<char>),
    Table(Seq<(Seq<char>, LeafView)>),
    Other,
}

/// A document by its contents: its keys and their values, in order.
pub type DocumentView = Seq<(Seq<char>, ItemView)>;

impl View for Leaf {
    type V = LeafView;

    open spec fn view(&self) -> LeafView {
        match self {
            Leaf::Text(s) => LeafView::Text(s@),
            Leaf::Other => LeafView::Other,
        }
    }
}

/// The entries of a table, each key and value by its view.
pub open spec fn leaves_view(entries: Seq<(String, Leaf)>) -> Seq<(Seq<char>, LeafView)> {
    Seq::new(entries.len(), |i: int| (entries[i].0@, entries[i].1@))
}

impl View for Item {
    type V = ItemView;

    open spec fn view(&self) -> ItemView {
        match self {
            Item::Text(s) => ItemView::Text(s@),
            Item::Table(t) => ItemView::Table(leaves_view(t@)),
            Item::Other => ItemView::Other,
        }
    }
}

impl View for Document {
    type V = DocumentView;

    open spec fn view(&self) -> DocumentView {
        Seq::new(self.entries@.len(), |i: int| (self.entries@[i].0@, self.entries@[i].1@))
    }
}

/// The document that a text denotes as TOML, if it is well-formed TOML: the
/// keys of its top-level table with their values, and for each value that is
/// a table, the keys and values of that table.
pub uninterp spec fn toml_document(text: Seq<char>) -> Option<DocumentView>;

/// Parses TOML with `toml::Table`'s `FromStr` (which is `toml::from_str`)
/// and carries the table over into a [`Document`], one entry for one entry:
/// strings and tables keep their contents, every other kind of value becomes
/// `Other`. Nothing is claimed of the result but that it is the document
/// which the text denotes.
#[verifier::external_body]
pub(crate) fn read_toml(text: &str) -> (doc: Option<Document>)
    ensures
        doc is Some == toml_document(text@) is Some,
        doc matches Some(d) ==> toml_document(text@) == Some(d@),
{
    let table = text.parse::<toml::Table>().ok()?;
    let leaf = |v: toml::Value| match v {
        toml::Value::String(s) => Leaf::Text(s),
        _ => Leaf::Other,
    };
    let item = |v: toml::Value| match v {
        toml::Value::String(s) => Item::Text(s),
        toml::Value::Table(t) => Item::Table(t.into_iter().map(|(k, v)| (k, leaf(v))).collect()),
        _ => Item::Other,
    };
    Some(Document { entries: table.into_iter().map(|(k, v)| (k, item(v))).collect() })
}

/// The value that the first entry with the given key holds at the top level.
pub open spec fn item_at(entries: DocumentView, key: Seq<char>) -> Option<ItemView>
    decreases entries.len(),
{
    if entries.len() == 0 {
        None
    } else if entries[0].0 == key {
        Some(entries[0].1)
    } else {
        item_at(entries.drop_first(), key)
    }
}

/// The value that the first entry with the given key holds in a table.
pub open spec fn leaf_at(entries: Seq<(Seq<char>, LeafView)>, key: Seq<char>) -> Option<LeafView>
    decreases entries.len(),
{
    if entries.len() == 0 {
        None
    } else if entries[0].0 == key {
        Some(entries[0].1)
    } else {
        leaf_at(entries.drop_first(), key)
    }
}

impl Document {
    /// The value under a top-level key.
    pub fn get(&self, key: &str) -> (found: Option<&Item>)
        ensures
            found is Some == item_at(self@, key@) is Some,
            found matches Some(item) ==> item_at(self@, key@) == Some(item@),
    {
        let mut i: usize = 0;
        assert(self@.skip(0) == self@);
        while i < self.entries.len()
            invariant
                i <= self.entries.len(),
                self@.len() == self.entries@.len(),
                item_at(self@, key@) == item_at(self@.skip(i as int), key@),
            decreases self.entries.len() - i,
        {
            assert(self@.skip(i as int).drop_first() == self@.skip(i + 1));
            assert(self@.skip(i as int)[0] == self@[i as int]);
            if crate::text::same(self.entries[i].0.as_str(), key) {
                return Some(&self.entries[i].1);
            }
            i += 1;
        }
        None
    }
}

/// The value under a key of a table.
pub fn table_get<'a>(table: &'a Vec<(String, Leaf)>, key: &str) -> (found: Option<&'a Leaf>)
    ensures
        found is Some == leaf_at(leaves_view(table@), key@) is Some,
        found matches Some(leaf) ==> leaf_at(leaves_view(table@), key@) == Some(leaf@),
{
    let ghost all = leaves_view(table@);
    let mut i: usize = 0;
    assert(all.skip(0) == all);
    while i < table.len()
        invariant
            i <= table.len(),
            all == leaves_view(table@),
            leaf_at(all, key@) == leaf_at(all.skip(i as int), key@),
        decreases table.len() - i,
    {
        assert(all.skip(i as int).drop_first() == all.skip(i + 1));
        assert(all.skip(i as int)[0] == all[i as int]);
        if crate::text::same(table[i].0.as_str(), key) {
            return Some(&table[i].1);
        }
        i += 1;
    }
    None
}

} // verus!
