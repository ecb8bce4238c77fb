//! What holds of writing and reading together: a listing that is written and
//! read back is the same listing.

use vstd::prelude::*;
use crate::codec::decode::ai_decoded;
use crate::codec::decode::contact_decoded;
use crate::codec::decode::is_job_type_label;
use crate::codec::decode::job_types_decoded;
use crate::codec::decode::listing_decoded;
use crate::codec::decode::manual_decoded;
use crate::codec::decode::texts_decoded;
use crate::codec::encode::ai_encoded;
use crate::codec::encode::contact_encoded;
use crate::codec::encode::job_types_encoded;
use crate::codec::encode::listing_encoded;
use crate::codec::encode::manual_encoded;
use crate::codec::encode::texts_encoded;
use crate::codec::keys::DecodeError;
use crate::codec::keys::Key;
use crate::codec::keys::key_name;
use crate::codec::keys::lemma_key_names_differ;
use crate::document::DocumentView;
use crate::codec::decode::single_entry;
use crate::document::lemma_occurrences_one;
use crate::document::lemma_entry_position_is;
use crate::job_type::JobType;
use crate::job_type::lemma_label_names_its_type;
use crate::model::AIListingInfoView;
use crate::model::ContactView;
use crate::model::ListingView;
use crate::model::ManualListingInfoView;

verus! {

/// The entry at `at` is the one found under its key where the entries are
/// named by keys of which no other is that key.
proof fn lemma_entry_at(entries: Seq<(Seq<char>, DocumentView)>, keys: Seq<Key>, at: int)
    requires
        0 <= at < entries.len(),
        keys.len() == entries.len(),
        forall|j: int| 0 <= j < keys.len() ==> (#[trigger] entries[j]).0 == key_name(keys[j]),
        forall|j: int| 0 <= j < keys.len() && j != at ==> keys[j] != keys[at],
    ensures
        single_entry(entries, keys[at]) == Ok::<Option<DocumentView>, DecodeError>(
            Some(entries[at].1),
        ),
{
    lemma_key_names_differ();
    assert forall|j: int| 0 <= j < entries.len() && j != at implies entries[j].0 != key_name(
        keys[at],
    ) by {
        assert(entries[j].0 == key_name(keys[j]));
    }
    lemma_entry_position_is(entries, key_name(keys[at]), at);
    lemma_occurrences_one(entries, key_name(keys[at]), at);
}

/// Reading the list written for `texts` gives `texts` back.
proof fn lemma_texts_round_trip(texts: Seq<Seq<char>>)
    ensures
        texts_decoded(texts_encoded(texts)->List_0) == Some(texts),
{
    let items = texts.map_values(|text: Seq<char>| DocumentView::Text(text));
    assert(items.map_values(|item: DocumentView| item->Text_0) =~= texts);
}

/// Reading the list written for `job_types` gives `job_types` back.
proof fn lemma_job_types_round_trip(job_types: Seq<JobType>)
    ensures
        job_types_decoded(job_types_encoded(job_types)->List_0) == Some(job_types),
{
    let items = job_types.map_values(
        |job_type: JobType| DocumentView::Text(job_type.label_text()),
    );
    assert forall|i: int| 0 <= i < items.len() implies is_job_type_label(#[trigger] items[i])
        && JobType::of_label(items[i]->Text_0) == Some(job_types[i]) by {
        lemma_label_names_its_type(job_types[i]);
    }
    assert(items.map_values(|item: DocumentView| JobType::of_label(item->Text_0)->0)
        =~= job_types);
}

/// A contact that is written and read back is the same contact: each value
/// is kept, and each absent value stays absent.
pub proof fn lemma_contact_round_trip(contact: ContactView)
    ensures
        contact_decoded(contact_encoded(contact)) == Ok::<ContactView, DecodeError>(contact),
{
    let entries = contact_encoded(contact)->Record_0;
    let keys = seq![Key::Name, Key::Email, Key::Phone, Key::Linkedin, Key::Github, Key::Portfolio];
    lemma_entry_at(entries, keys, 0);
    lemma_entry_at(entries, keys, 1);
    lemma_entry_at(entries, keys, 2);
    lemma_entry_at(entries, keys, 3);
    lemma_entry_at(entries, keys, 4);
    lemma_entry_at(entries, keys, 5);
}

/// The fields read from the site, written and read back, are the same
/// fields.
pub proof fn lemma_manual_round_trip(info: ManualListingInfoView)
    ensures
        manual_decoded(manual_encoded(info)) == Ok::<ManualListingInfoView, DecodeError>(info),
{
    let entries = manual_encoded(info)->Record_0;
    let keys = seq![
        Key::Company,
        Key::Title,
        Key::JobType,
        Key::Locations,
        Key::ApplicationLink,
        Key::KarriereId,
    ];
    lemma_entry_at(entries, keys, 0);
    lemma_entry_at(entries, keys, 1);
    lemma_entry_at(entries, keys, 2);
    lemma_entry_at(entries, keys, 3);
    lemma_entry_at(entries, keys, 4);
    lemma_entry_at(entries, keys, 5);
    lemma_job_types_round_trip(info.job_type);
    lemma_texts_round_trip(info.locations);
}

/// The inferred fields, written and read back, are the same fields: an
/// absent field stays absent and is not turned into an empty text, an empty
/// list or zero.
pub proof fn lemma_ai_round_trip(info: AIListingInfoView)
    ensures
        ai_decoded(ai_encoded(info)) == Ok::<AIListingInfoView, DecodeError>(info),
{
    let entries = ai_encoded(info)->Record_0;
    let keys = seq![
        Key::Description,
        Key::SalaryMin,
        Key::SalaryMax,
        Key::Contact,
        Key::Perks,
        Key::Requirements,
        Key::Responsibilities,
    ];
    lemma_entry_at(entries, keys, 0);
    lemma_entry_at(entries, keys, 1);
    lemma_entry_at(entries, keys, 2);
    lemma_entry_at(entries, keys, 3);
    lemma_entry_at(entries, keys, 4);
    lemma_entry_at(entries, keys, 5);
    lemma_entry_at(entries, keys, 6);
    if let Some(contact) = info.contact {
        lemma_contact_round_trip(contact);
    }
    if let Some(texts) = info.perks {
        lemma_texts_round_trip(texts);
    }
    if let Some(texts) = info.requirements {
        lemma_texts_round_trip(texts);
    }
    if let Some(texts) = info.responsibilities {
        lemma_texts_round_trip(texts);
    }
}

/// A listing that is written as a document and read back is the same
/// listing, whatever it holds.
pub proof fn lemma_listing_round_trip(listing: ListingView)
    ensures
        listing_decoded(listing_encoded(listing)) == Ok::<ListingView, DecodeError>(listing),
{
    let entries = listing_encoded(listing)->Record_0;
    let keys = seq![Key::ManualListingInfo, Key::AiListingInfo];
    lemma_entry_at(entries, keys, 0);
    lemma_entry_at(entries, keys, 1);
    lemma_manual_round_trip(listing.manual_listing_info);
    lemma_ai_round_trip(listing.ai_listing_info);
}

} // verus!
