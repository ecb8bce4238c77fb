//! Writing a listing as a document.

use vstd::prelude::*;
use crate::codec::keys::Key;
use crate::codec::keys::key_name;
use crate::document::Document;
use crate::document::DocumentView;
use crate::document::entries_view;
use crate::document::items_view;
use crate::job_type::JobType;
use crate::model::AIListingInfo;
use crate::model::AIListingInfoView;
use crate::model::Contact;
use crate::model::ContactView;
use crate::model::Listing;
use crate::model::ListingView;
use crate::model::ManualListingInfo;
use crate::model::ManualListingInfoView;

verus! {

/// The document for a text that may be absent.
pub open spec fn optional_text_encoded(text: Option<Seq<char>>) -> DocumentView {
    match text {
        Some(text) => DocumentView::Text(text),
        None => DocumentView::Null,
    }
}

/// The document for a number that may be absent.
pub open spec fn optional_number_encoded(number: Option<u32>) -> DocumentView {
    match number {
        Some(number) => DocumentView::Number(number as u64),
        None => DocumentView::Null,
    }
}

/// The document for a list of texts.
pub open spec fn texts_encoded(texts: Seq<Seq<char>>) -> DocumentView {
    DocumentView::List(texts.map_values(|text: Seq<char>| DocumentView::Text(text)))
}

/// The document for a list of texts that may be absent.
pub open spec fn optional_texts_encoded(texts: Option<Seq<Seq<char>>>) -> DocumentView {
    match texts {
        Some(texts) => texts_encoded(texts),
        None => DocumentView::Null,
    }
}

/// The document for a list of job types: the list of their labels.
pub open spec fn job_types_encoded(job_types: Seq<JobType>) -> DocumentView {
    DocumentView::List(
        job_types.map_values(|job_type: JobType| DocumentView::Text(job_type.label_text())),
    )
}

/// The document for a contact.
pub open spec fn contact_encoded(contact: ContactView) -> DocumentView {
    DocumentView::Record(
        seq![
            (key_name(Key::Name), optional_text_encoded(contact.name)),
            (key_name(Key::Email), optional_text_encoded(contact.email)),
            (key_name(Key::Phone), optional_text_encoded(contact.phone)),
            (key_name(Key::Linkedin), optional_text_encoded(contact.linkedin)),
            (key_name(Key::Github), optional_text_encoded(contact.github)),
            (key_name(Key::Portfolio), optional_text_encoded(contact.portfolio)),
        ],
    )
}

/// The document for a contact that may be absent.
pub open spec fn optional_contact_encoded(contact: Option<ContactView>) -> DocumentView {
    match contact {
        Some(contact) => contact_encoded(contact),
        None => DocumentView::Null,
    }
}

/// The document for the fields read from the listing site.
pub open spec fn manual_encoded(info: ManualListingInfoView) -> DocumentView {
    DocumentView::Record(
        seq![
            (key_name(Key::Company), DocumentView::Text(info.company)),
            (key_name(Key::Title), DocumentView::Text(info.title)),
            (key_name(Key::JobType), job_types_encoded(info.job_type)),
            (key_name(Key::Locations), texts_encoded(info.locations)),
            (key_name(Key::ApplicationLink), DocumentView::Text(info.application_link)),
            (key_name(Key::KarriereId), DocumentView::Text(info.karriere_id)),
        ],
    )
}

/// The document for the inferred fields.
pub open spec fn ai_encoded(info: AIListingInfoView) -> DocumentView {
    DocumentView::Record(
        seq![
            (key_name(Key::Description), optional_text_encoded(info.description)),
            (key_name(Key::SalaryMin), optional_number_encoded(info.salary_min)),
            (key_name(Key::SalaryMax), optional_number_encoded(info.salary_max)),
            (key_name(Key::Contact), optional_contact_encoded(info.contact)),
            (key_name(Key::Perks), optional_texts_encoded(info.perks)),
            (key_name(Key::Requirements), optional_texts_encoded(info.requirements)),
            (key_name(Key::Responsibilities), optional_texts_encoded(info.responsibilities)),
        ],
    )
}

/// The document for a listing.
pub open spec fn listing_encoded(listing: ListingView) -> DocumentView {
    DocumentView::Record(
        seq![
            (key_name(Key::ManualListingInfo), manual_encoded(listing.manual_listing_info)),
            (key_name(Key::AiListingInfo), ai_encoded(listing.ai_listing_info)),
        ],
    )
}

/// Writes a text that may be absent.
fn encode_optional_text(text: &Option<String>) -> (document: Document)
    ensures
        document@ == optional_text_encoded(text.deep_view()),
{
    match text {
        Some(text) => Document::Text(text.clone()),
        None => Document::Null,
    }
}

/// Writes a number that may be absent.
fn encode_optional_number(number: Option<u32>) -> (document: Document)
    ensures
        document@ == optional_number_encoded(number),
{
    match number {
        Some(number) => Document::Number(number as u64),
        None => Document::Null,
    }
}

/// Writes a list of texts.
fn encode_texts(texts: &Vec<String>) -> (document: Document)
    ensures
        document@ == texts_encoded(texts.deep_view()),
{
    let mut items: Vec<Document> = Vec::new();
    let mut i: usize = 0;
    while i < texts.len()
        invariant
            i <= texts.len(),
            items.len() == i,
            forall|k: int| 0 <= k < i ==> (#[trigger] items[k])@ == DocumentView::Text(texts[k]@),
        decreases texts.len() - i,
    {
        items.push(Document::Text(texts[i].clone()));
        i += 1;
    }
    assert(items_view(items@) =~= texts.deep_view().map_values(
        |text: Seq<char>| DocumentView::Text(text),
    ));
    Document::list(items)
}

/// Writes a list of texts that may be absent.
fn encode_optional_texts(texts: &Option<Vec<String>>) -> (document: Document)
    ensures
        document@ == optional_texts_encoded(texts.deep_view()),
{
    match texts {
        Some(texts) => encode_texts(texts),
        None => Document::Null,
    }
}

/// Writes a list of job types as the list of their labels.
fn encode_job_types(job_types: &Vec<JobType>) -> (document: Document)
    ensures
        document@ == job_types_encoded(job_types@),
{
    let mut items: Vec<Document> = Vec::new();
    let mut i: usize = 0;
    while i < job_types.len()
        invariant
            i <= job_types.len(),
            items.len() == i,
            forall|k: int|
                0 <= k < i ==> (#[trigger] items[k])@ == DocumentView::Text(
                    job_types[k].label_text(),
                ),
        decreases job_types.len() - i,
    {
        items.push(Document::Text(job_types[i].label().to_owned()));
        i += 1;
    }
    assert(items_view(items@) =~= job_types@.map_values(
        |job_type: JobType| DocumentView::Text(job_type.label_text()),
    ));
    Document::list(items)
}

/// Appends the entry `key: value` to the entries of a record.
fn push_entry(entries: &mut Vec<(String, Document)>, key: Key, value: Document)
    ensures
        entries_view(final(entries)@) == entries_view(old(entries)@).push((key_name(key), value@)),
{
    entries.push((key.name().to_owned(), value));
    assert(entries_view(entries@) =~= entries_view(old(entries)@).push((key_name(key), value@)));
}

/// Writes a contact as a record with one entry for each of its fields.
pub fn encode_contact(contact: &Contact) -> (document: Document)
    ensures
        document@ == contact_encoded(contact@),
{
    let mut entries: Vec<(String, Document)> = Vec::new();
    assert(entries_view(entries@) =~= Seq::empty());
    push_entry(&mut entries, Key::Name, encode_optional_text(&contact.name));
    push_entry(&mut entries, Key::Email, encode_optional_text(&contact.email));
    push_entry(&mut entries, Key::Phone, encode_optional_text(&contact.phone));
    push_entry(&mut entries, Key::Linkedin, encode_optional_text(&contact.linkedin));
    push_entry(&mut entries, Key::Github, encode_optional_text(&contact.github));
    push_entry(&mut entries, Key::Portfolio, encode_optional_text(&contact.portfolio));
    assert(entries_view(entries@) =~= contact_encoded(contact@)->Record_0);
    Document::record(entries)
}

/// Writes a contact that may be absent.
fn encode_optional_contact(contact: &Option<Contact>) -> (document: Document)
    ensures
        document@ == optional_contact_encoded(contact.deep_view()),
{
    match contact {
        Some(contact) => encode_contact(contact),
        None => Document::Null,
    }
}

/// Writes the fields read from the listing site as a record.
pub fn encode_manual(info: &ManualListingInfo) -> (document: Document)
    ensures
        document@ == manual_encoded(info@),
{
    let mut entries: Vec<(String, Document)> = Vec::new();
    assert(entries_view(entries@) =~= Seq::empty());
    push_entry(&mut entries, Key::Company, Document::Text(info.company.clone()));
    push_entry(&mut entries, Key::Title, Document::Text(info.title.clone()));
    push_entry(&mut entries, Key::JobType, encode_job_types(&info.job_type));
    push_entry(&mut entries, Key::Locations, encode_texts(&info.locations));
    push_entry(&mut entries, Key::ApplicationLink, Document::Text(info.application_link.clone()));
    push_entry(&mut entries, Key::KarriereId, Document::Text(info.karriere_id.clone()));
    assert(entries_view(entries@) =~= manual_encoded(info@)->Record_0);
    Document::record(entries)
}

/// Writes the inferred fields as a record; an absent field becomes `Null`.
pub fn encode_ai(info: &AIListingInfo) -> (document: Document)
    ensures
        document@ == ai_encoded(info@),
{
    let mut entries: Vec<(String, Document)> = Vec::new();
    assert(entries_view(entries@) =~= Seq::empty());
    push_entry(&mut entries, Key::Description, encode_optional_text(&info.description));
    push_entry(&mut entries, Key::SalaryMin, encode_optional_number(info.salary_min));
    push_entry(&mut entries, Key::SalaryMax, encode_optional_number(info.salary_max));
    push_entry(&mut entries, Key::Contact, encode_optional_contact(&info.contact));
    push_entry(&mut entries, Key::Perks, encode_optional_texts(&info.perks));
    push_entry(&mut entries, Key::Requirements, encode_optional_texts(&info.requirements));
    push_entry(&mut entries, Key::Responsibilities, encode_optional_texts(&info.responsibilities));
    assert(entries_view(entries@) =~= ai_encoded(info@)->Record_0);
    Document::record(entries)
}

/// Writes a listing as a record of its two parts.
pub fn encode_listing(listing: &Listing) -> (document: Document)
    ensures
        document@ == listing_encoded(listing@),
{
    let mut entries: Vec<(String, Document)> = Vec::new();
    assert(entries_view(entries@) =~= Seq::empty());
    push_entry(&mut entries, Key::ManualListingInfo, encode_manual(&listing.manual_listing_info));
    push_entry(&mut entries, Key::AiListingInfo, encode_ai(&listing.ai_listing_info));
    assert(entries_view(entries@) =~= listing_encoded(listing@)->Record_0);
    Document::record(entries)
}

} // verus!
