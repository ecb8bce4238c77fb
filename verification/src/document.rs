//! Structured documents: the tree of records, lists and scalars that a
//! listing is written to and read from.

use vstd::prelude::*;
use crate::text::same_text;

verus! {

/// A structured document: a scalar, a list of documents, or a record of
/// named documents in a fixed order.
#[derive(Debug, PartialEq, Eq)]
pub enum Document {
    /// Nothing: the value of an entry that is absent.
    Null,
    Bool(bool),
    /// A whole number from zero up.
    Number(u64),
    /// Any other number: negative, with a fraction, or too large. It is held
    /// as its decimal digits.
    Decimal(String),
    Text(String),
    List(Vec<Document>),
    Record(Vec<(String, Document)>),
}

/// A `Document` with its texts, lists and records as sequences.
pub enum DocumentView {
    Null,
    Bool(bool),
    Number(u64),
    Decimal(Seq<char>),
    Text(Seq<char>),
    List(Seq<DocumentView>),
    Record(Seq<(Seq<char>, DocumentView)>),
}

/// What `document` is in specifications.
pub open spec fn document_view(document: Document) -> DocumentView
    decreases document,
{
    match document {
        Document::Null => DocumentView::Null,
        Document::Bool(b) => DocumentView::Bool(b),
        Document::Number(n) => DocumentView::Number(n),
        Document::Decimal(digits) => DocumentView::Decimal(digits@),
        Document::Text(text) => DocumentView::Text(text@),
        Document::List(items) => DocumentView::List(
            Seq::new(
                items@.len(),
                |i: int|
                    if 0 <= i < items@.len() {
                        document_view(items@[i])
                    } else {
                        DocumentView::Null
                    },
            ),
        ),
        Document::Record(entries) => DocumentView::Record(
            Seq::new(
                entries@.len(),
                |i: int|
                    if 0 <= i < entries@.len() {
                        (entries@[i].0@, document_view(entries@[i].1))
                    } else {
                        (Seq::empty(), DocumentView::Null)
                    },
            ),
        ),
    }
}

impl View for Document {
    type V = DocumentView;

    open spec fn view(&self) -> DocumentView {
        document_view(*self)
    }
}

/// The views of `items`, in order.
pub open spec fn items_view(items: Seq<Document>) -> Seq<DocumentView> {
    Seq::new(items.len(), |i: int| items[i]@)
}

/// The views of `entries`, in order: each name with the view of its value.
pub open spec fn entries_view(entries: Seq<(String, Document)>) -> Seq<(Seq<char>, DocumentView)> {
    Seq::new(entries.len(), |i: int| (entries[i].0@, entries[i].1@))
}

/// The index of the first entry named `name`, or the number of entries where
/// none has that name.
pub open spec fn entry_position(entries: Seq<(Seq<char>, DocumentView)>, name: Seq<char>) -> nat
    decreases entries.len(),
{
    if entries.len() == 0 || entries.first().0 == name {
        0
    } else {
        1 + entry_position(entries.drop_first(), name)
    }
}

/// The value of the first entry named `name`, if there is one.
pub open spec fn entry_of(entries: Seq<(Seq<char>, DocumentView)>, name: Seq<char>) -> Option<
    DocumentView,
> {
    let at = entry_position(entries, name);
    if at < entries.len() {
        Some(entries[at as int].1)
    } else {
        None
    }
}

/// How many entries are named `name`.
pub open spec fn occurrences(entries: Seq<(Seq<char>, DocumentView)>, name: Seq<char>) -> nat
    decreases entries.len(),
{
    if entries.len() == 0 {
        0
    } else if entries.last().0 == name {
        1 + occurrences(entries.drop_last(), name)
    } else {
        occurrences(entries.drop_last(), name)
    }
}

/// The view of a list is the list of the views of its items.
pub proof fn lemma_list_view(items: Vec<Document>)
    ensures
        Document::List(items)@ == DocumentView::List(items_view(items@)),
{
    assert(Document::List(items)@->List_0 =~= items_view(items@));
}

/// The view of a record is the sequence of the views of its entries.
pub proof fn lemma_record_view(entries: Vec<(String, Document)>)
    ensures
        Document::Record(entries)@ == DocumentView::Record(entries_view(entries@)),
{
    assert(Document::Record(entries)@->Record_0 =~= entries_view(entries@));
}

/// Where the first entry named `name` stands: at `at`, when no entry before
/// `at` has the name and `at` is the end or has it.
pub proof fn lemma_entry_position_is(
    entries: Seq<(Seq<char>, DocumentView)>,
    name: Seq<char>,
    at: int,
)
    requires
        0 <= at <= entries.len(),
        forall|j: int| 0 <= j < at ==> entries[j].0 != name,
        at < entries.len() ==> entries[at].0 == name,
    ensures
        entry_position(entries, name) == at,
    decreases at,
{
    if at > 0 {
        assert(entries[0].0 != name);
        lemma_entry_position_is(entries.drop_first(), name, at - 1);
    }
}

/// A name that no entry has occurs no time.
pub proof fn lemma_occurrences_none(entries: Seq<(Seq<char>, DocumentView)>, name: Seq<char>)
    requires
        forall|j: int| 0 <= j < entries.len() ==> entries[j].0 != name,
    ensures
        occurrences(entries, name) == 0,
    decreases entries.len(),
{
    if entries.len() > 0 {
        assert(entries.last() == entries[entries.len() - 1]);
        lemma_occurrences_none(entries.drop_last(), name);
    }
}

/// A name that only the entry at `at` has occurs once.
pub proof fn lemma_occurrences_one(
    entries: Seq<(Seq<char>, DocumentView)>,
    name: Seq<char>,
    at: int,
)
    requires
        0 <= at < entries.len(),
        entries[at].0 == name,
        forall|j: int| 0 <= j < entries.len() && j != at ==> entries[j].0 != name,
    ensures
        occurrences(entries, name) == 1,
    decreases entries.len(),
{
    let rest = entries.drop_last();
    assert(entries.last() == entries[entries.len() - 1]);
    if at == entries.len() - 1 {
        lemma_occurrences_none(rest, name);
    } else {
        lemma_occurrences_one(rest, name, at);
    }
}

/// Copies a document, its items and entries included.
fn copy_of(document: &Document) -> (copy: Document)
    ensures
        copy@ == document@,
    decreases document,
{
    match document {
        Document::Null => Document::Null,
        Document::Bool(b) => Document::Bool(*b),
        Document::Number(n) => Document::Number(*n),
        Document::Decimal(digits) => Document::Decimal(digits.clone()),
        Document::Text(text) => Document::Text(text.clone()),
        Document::List(items) => {
            let mut copies: Vec<Document> = Vec::new();
            let mut i: usize = 0;
            while i < items.len()
                invariant
                    i <= items.len(),
                    *document == Document::List(*items),
                    copies.len() == i,
                    forall|k: int| 0 <= k < i ==> (#[trigger] copies[k])@ == items[k]@,
                decreases items.len() - i,
            {
                assert(decreases_to!(*document => document->List_0));
                copies.push(copy_of(&items[i]));
                i += 1;
            }
            proof {
                lemma_list_view(*items);
                assert(items_view(copies@) =~= items_view(items@));
            }
            Document::list(copies)
        },
        Document::Record(entries) => {
            let mut copies: Vec<(String, Document)> = Vec::new();
            let mut i: usize = 0;
            while i < entries.len()
                invariant
                    i <= entries.len(),
                    *document == Document::Record(*entries),
                    copies.len() == i,
                    forall|k: int|
                        0 <= k < i ==> (#[trigger] copies[k]).0@ == entries[k].0@ && copies[k].1@
                            == entries[k].1@,
                decreases entries.len() - i,
            {
                assert(decreases_to!(*document => document->Record_0));
                copies.push((entries[i].0.clone(), copy_of(&entries[i].1)));
                i += 1;
            }
            proof {
                lemma_record_view(*entries);
                assert(entries_view(copies@) =~= entries_view(entries@));
            }
            Document::record(copies)
        },
    }
}

impl Clone for Document {
    fn clone(&self) -> (copy: Document)
        ensures
            copy@ == self@,
    {
        copy_of(self)
    }
}

impl Document {
    /// Makes a list of `items`.
    pub fn list(items: Vec<Document>) -> (document: Document)
        ensures
            document@ == DocumentView::List(items_view(items@)),
    {
        proof {
            lemma_list_view(items);
        }
        Document::List(items)
    }

    /// Makes a record of `entries`.
    pub fn record(entries: Vec<(String, Document)>) -> (document: Document)
        ensures
            document@ == DocumentView::Record(entries_view(entries@)),
    {
        proof {
            lemma_record_view(entries);
        }
        Document::Record(entries)
    }
}

/// Looks up the first entry of a record that is named `name`.
pub fn find_entry<'a>(entries: &'a Vec<(String, Document)>, name: &str) -> (found: Option<
    &'a Document,
>)
    ensures
        match found {
            Some(value) => entry_of(entries_view(entries@), name@) == Some(value@),
            None => entry_of(entries_view(entries@), name@) is None,
        },
{
    let ghost all = entries_view(entries@);
    let mut i: usize = 0;
    while i < entries.len()
        invariant
            i <= entries.len(),
            all == entries_view(entries@),
            forall|j: int| 0 <= j < i ==> all[j].0 != name@,
        decreases entries.len() - i,
    {
        if same_text(entries[i].0.as_str(), name) {
            proof {
                lemma_entry_position_is(all, name@, i as int);
            }
            return Some(&entries[i].1);
        }
        i += 1;
    }
    proof {
        lemma_entry_position_is(all, name@, i as int);
    }
    None
}

/// Counts the entries of a record that are named `name`.
pub fn count_entries(entries: &Vec<(String, Document)>, name: &str) -> (count: usize)
    ensures
        count == occurrences(entries_view(entries@), name@),
{
    let ghost all = entries_view(entries@);
    let mut count: usize = 0;
    let mut i: usize = 0;
    assert(all.take(0) =~= Seq::empty());
    while i < entries.len()
        invariant
            i <= entries.len(),
            all == entries_view(entries@),
            count <= i,
            count == occurrences(all.take(i as int), name@),
        decreases entries.len() - i,
    {
        assert(all.take(i + 1).drop_last() =~= all.take(i as int));
        assert(all.take(i + 1).last() == all[i as int]);
        if same_text(entries[i].0.as_str(), name) {
            count += 1;
        }
        i += 1;
    }
    assert(all.take(i as int) =~= all);
    count
}

} // verus!
