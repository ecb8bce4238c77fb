//! Reading a listing from a document.

use vstd::prelude::*;
use crate::codec::keys::DecodeError;
use crate::codec::keys::Key;
use crate::codec::keys::key_name;
use crate::document::Document;
use crate::document::DocumentView;
use crate::document::entries_view;
use crate::document::entry_of;
use crate::document::find_entry;
use crate::document::count_entries;
use crate::document::items_view;
use crate::document::occurrences;
use crate::document::lemma_list_view;
use crate::document::lemma_record_view;
use crate::job_type::JobType;
use crate::model::AIListingInfo;
use crate::model::AIListingInfoView;
use crate::model::Contact;
use crate::model::ContactView;
use crate::model::Listing;
use crate::model::ListingView;
use crate::model::ManualListingInfo;
use crate::model::ManualListingInfoView;

verus! {

/// What `decoded` is in specifications.
pub open spec fn decoded_view<T: DeepView>(decoded: Result<T, DecodeError>) -> Result<
    T::V,
    DecodeError,
> {
    match decoded {
        Ok(value) => Ok(value.deep_view()),
        Err(error) => Err(error),
    }
}

/// The value under `key`: that of the one entry of that name, nothing where
/// there is no such entry, and an error where there are several.
pub open spec fn single_entry(entries: Seq<(Seq<char>, DocumentView)>, key: Key) -> Result<
    Option<DocumentView>,
    DecodeError,
> {
    if occurrences(entries, key_name(key)) > 1 {
        Err(DecodeError::Duplicate(key))
    } else {
        Ok(entry_of(entries, key_name(key)))
    }
}

/// The text under `key`, which has to be there.
pub open spec fn required_text(entries: Seq<(Seq<char>, DocumentView)>, key: Key) -> Result<
    Seq<char>,
    DecodeError,
> {
    match single_entry(entries, key) {
        Err(error) => Err(error),
        Ok(None) | Ok(Some(DocumentView::Null)) => Err(DecodeError::Missing(key)),
        Ok(Some(DocumentView::Text(text))) => Ok(text),
        Ok(Some(_)) => Err(DecodeError::Mismatch(key)),
    }
}

/// The text under `key`, absent where the entry is missing or `Null`.
pub open spec fn optional_text(entries: Seq<(Seq<char>, DocumentView)>, key: Key) -> Result<
    Option<Seq<char>>,
    DecodeError,
> {
    match single_entry(entries, key) {
        Err(error) => Err(error),
        Ok(None) | Ok(Some(DocumentView::Null)) => Ok(None),
        Ok(Some(DocumentView::Text(text))) => Ok(Some(text)),
        Ok(Some(_)) => Err(DecodeError::Mismatch(key)),
    }
}

/// The number under `key`, absent where the entry is missing or `Null`. A
/// number that does not fit the field is of the wrong kind.
pub open spec fn optional_number(entries: Seq<(Seq<char>, DocumentView)>, key: Key) -> Result<
    Option<u32>,
    DecodeError,
> {
    match single_entry(entries, key) {
        Err(error) => Err(error),
        Ok(None) | Ok(Some(DocumentView::Null)) => Ok(None),
        Ok(Some(DocumentView::Number(number))) => if number <= u32::MAX {
            Ok(Some(number as u32))
        } else {
            Err(DecodeError::Mismatch(key))
        },
        Ok(Some(_)) => Err(DecodeError::Mismatch(key)),
    }
}

/// The texts that `items` hold, where each of them is a text.
pub open spec fn texts_decoded(items: Seq<DocumentView>) -> Option<Seq<Seq<char>>> {
    if forall|i: int| 0 <= i < items.len() ==> #[trigger] items[i] is Text {
        Some(items.map_values(|item: DocumentView| item->Text_0))
    } else {
        None
    }
}

/// The list of texts under `key`, which has to be there.
pub open spec fn required_texts(entries: Seq<(Seq<char>, DocumentView)>, key: Key) -> Result<
    Seq<Seq<char>>,
    DecodeError,
> {
    match single_entry(entries, key) {
        Err(error) => Err(error),
        Ok(None) | Ok(Some(DocumentView::Null)) => Err(DecodeError::Missing(key)),
        Ok(Some(DocumentView::List(items))) => match texts_decoded(items) {
            Some(texts) => Ok(texts),
            None => Err(DecodeError::Mismatch(key)),
        },
        Ok(Some(_)) => Err(DecodeError::Mismatch(key)),
    }
}

/// The list of texts under `key`, absent where the entry is missing or
/// `Null`.
pub open spec fn optional_texts(entries: Seq<(Seq<char>, DocumentView)>, key: Key) -> Result<
    Option<Seq<Seq<char>>>,
    DecodeError,
> {
    match single_entry(entries, key) {
        Err(error) => Err(error),
        Ok(None) | Ok(Some(DocumentView::Null)) => Ok(None),
        Ok(Some(DocumentView::List(items))) => match texts_decoded(items) {
            Some(texts) => Ok(Some(texts)),
            None => Err(DecodeError::Mismatch(key)),
        },
        Ok(Some(_)) => Err(DecodeError::Mismatch(key)),
    }
}

/// Whether `item` is the label of a job type.
pub open spec fn is_job_type_label(item: DocumentView) -> bool {
    item is Text && JobType::of_label(item->Text_0) is Some
}

/// The job types that `items` name, where each of them is the label of one.
pub open spec fn job_types_decoded(items: Seq<DocumentView>) -> Option<Seq<JobType>> {
    if forall|i: int| 0 <= i < items.len() ==> is_job_type_label(#[trigger] items[i]) {
        Some(items.map_values(|item: DocumentView| JobType::of_label(item->Text_0)->0))
    } else {
        None
    }
}

/// The list of job types under `key`, which has to be there.
pub open spec fn required_job_types(entries: Seq<(Seq<char>, DocumentView)>, key: Key) -> Result<
    Seq<JobType>,
    DecodeError,
> {
    match single_entry(entries, key) {
        Err(error) => Err(error),
        Ok(None) | Ok(Some(DocumentView::Null)) => Err(DecodeError::Missing(key)),
        Ok(Some(DocumentView::List(items))) => match job_types_decoded(items) {
            Some(job_types) => Ok(job_types),
            None => Err(DecodeError::Mismatch(key)),
        },
        Ok(Some(_)) => Err(DecodeError::Mismatch(key)),
    }
}

/// The contact that a document holds. Every field may be absent; the first
/// field of the wrong kind, in the order of the fields, is the error.
pub open spec fn contact_decoded(document: DocumentView) -> Result<ContactView, DecodeError> {
    match document {
        DocumentView::Record(entries) => {
            let name = optional_text(entries, Key::Name);
            let email = optional_text(entries, Key::Email);
            let phone = optional_text(entries, Key::Phone);
            let linkedin = optional_text(entries, Key::Linkedin);
            let github = optional_text(entries, Key::Github);
            let portfolio = optional_text(entries, Key::Portfolio);
            if name is Err {
                Err(name->Err_0)
            } else if email is Err {
                Err(email->Err_0)
            } else if phone is Err {
                Err(phone->Err_0)
            } else if linkedin is Err {
                Err(linkedin->Err_0)
            } else if github is Err {
                Err(github->Err_0)
            } else if portfolio is Err {
                Err(portfolio->Err_0)
            } else {
                Ok(
                    ContactView {
                        name: name->Ok_0,
                        email: email->Ok_0,
                        phone: phone->Ok_0,
                        linkedin: linkedin->Ok_0,
                        github: github->Ok_0,
                        portfolio: portfolio->Ok_0,
                    },
                )
            }
        },
        _ => Err(DecodeError::NotARecord),
    }
}

/// The contact under `key`, absent where the entry is missing or `Null`.
pub open spec fn optional_contact(entries: Seq<(Seq<char>, DocumentView)>, key: Key) -> Result<
    Option<ContactView>,
    DecodeError,
> {
    match single_entry(entries, key) {
        Err(error) => Err(error),
        Ok(None) | Ok(Some(DocumentView::Null)) => Ok(None),
        Ok(Some(DocumentView::Record(inner))) => match contact_decoded(DocumentView::Record(inner)) {
            Ok(contact) => Ok(Some(contact)),
            Err(error) => Err(error),
        },
        Ok(Some(_)) => Err(DecodeError::Mismatch(key)),
    }
}

/// The fields read from the listing site that a document holds. All of them
/// are required; the first one that is missing or of the wrong kind, in the
/// order of the fields, is the error.
pub open spec fn manual_decoded(document: DocumentView) -> Result<
    ManualListingInfoView,
    DecodeError,
> {
    match document {
        DocumentView::Record(entries) => {
            let company = required_text(entries, Key::Company);
            let title = required_text(entries, Key::Title);
            let job_type = required_job_types(entries, Key::JobType);
            let locations = required_texts(entries, Key::Locations);
            let application_link = required_text(entries, Key::ApplicationLink);
            let karriere_id = required_text(entries, Key::KarriereId);
            if company is Err {
                Err(company->Err_0)
            } else if title is Err {
                Err(title->Err_0)
            } else if job_type is Err {
                Err(job_type->Err_0)
            } else if locations is Err {
                Err(locations->Err_0)
            } else if application_link is Err {
                Err(application_link->Err_0)
            } else if karriere_id is Err {
                Err(karriere_id->Err_0)
            } else {
                Ok(
                    ManualListingInfoView {
                        company: company->Ok_0,
                        title: title->Ok_0,
                        job_type: job_type->Ok_0,
                        locations: locations->Ok_0,
                        application_link: application_link->Ok_0,
                        karriere_id: karriere_id->Ok_0,
                    },
                )
            }
        },
        _ => Err(DecodeError::NotARecord),
    }
}

/// The inferred fields that a document holds. Every field may be absent; the
/// first field of the wrong kind, in the order of the fields, is the error.
pub open spec fn ai_decoded(document: DocumentView) -> Result<AIListingInfoView, DecodeError> {
    match document {
        DocumentView::Record(entries) => {
            let description = optional_text(entries, Key::Description);
            let salary_min = optional_number(entries, Key::SalaryMin);
            let salary_max = optional_number(entries, Key::SalaryMax);
            let contact = optional_contact(entries, Key::Contact);
            let perks = optional_texts(entries, Key::Perks);
            let requirements = optional_texts(entries, Key::Requirements);
            let responsibilities = optional_texts(entries, Key::Responsibilities);
            if description is Err {
                Err(description->Err_0)
            } else if salary_min is Err {
                Err(salary_min->Err_0)
            } else if salary_max is Err {
                Err(salary_max->Err_0)
            } else if contact is Err {
                Err(contact->Err_0)
            } else if perks is Err {
                Err(perks->Err_0)
            } else if requirements is Err {
                Err(requirements->Err_0)
            } else if responsibilities is Err {
                Err(responsibilities->Err_0)
            } else {
                Ok(
                    AIListingInfoView {
                        description: description->Ok_0,
                        salary_min: salary_min->Ok_0,
                        salary_max: salary_max->Ok_0,
                        contact: contact->Ok_0,
                        perks: perks->Ok_0,
                        requirements: requirements->Ok_0,
                        responsibilities: responsibilities->Ok_0,
                    },
                )
            }
        },
        _ => Err(DecodeError::NotARecord),
    }
}

/// The listing that a document holds. The fields read from the site have to
/// be there as a record. The inferred fields may be missing as a whole, and
/// are then all absent.
pub open spec fn listing_decoded(document: DocumentView) -> Result<ListingView, DecodeError> {
    match document {
        DocumentView::Record(entries) => {
            let manual = match single_entry(entries, Key::ManualListingInfo) {
                Err(error) => Err(error),
                Ok(None) | Ok(Some(DocumentView::Null)) => Err(
                    DecodeError::Missing(Key::ManualListingInfo),
                ),
                Ok(Some(DocumentView::Record(inner))) => manual_decoded(
                    DocumentView::Record(inner),
                ),
                Ok(Some(_)) => Err(DecodeError::Mismatch(Key::ManualListingInfo)),
            };
            let ai = match single_entry(entries, Key::AiListingInfo) {
                Err(error) => Err(error),
                Ok(None) | Ok(Some(DocumentView::Null)) => Ok(AIListingInfo::absent_view()),
                Ok(Some(DocumentView::Record(inner))) => ai_decoded(DocumentView::Record(inner)),
                Ok(Some(_)) => Err(DecodeError::Mismatch(Key::AiListingInfo)),
            };
            if manual is Err {
                Err(manual->Err_0)
            } else if ai is Err {
                Err(ai->Err_0)
            } else {
                Ok(ListingView { manual_listing_info: manual->Ok_0, ai_listing_info: ai->Ok_0 })
            }
        },
        _ => Err(DecodeError::NotARecord),
    }
}

/// Looks up the one entry of a record that is named by `key`. Several
/// entries of that name are an error.
fn find_single<'a>(entries: &'a Vec<(String, Document)>, key: Key) -> (found: Result<
    Option<&'a Document>,
    DecodeError,
>)
    ensures
        match found {
            Ok(Some(value)) => single_entry(entries_view(entries@), key) == Ok::<_, DecodeError>(
                Some(value@),
            ),
            Ok(None) => single_entry(entries_view(entries@), key) == Ok::<_, DecodeError>(
                None::<DocumentView>,
            ),
            Err(error) => single_entry(entries_view(entries@), key) == Err::<
                Option<DocumentView>,
                _,
            >(error),
        },
{
    if count_entries(entries, key.name()) > 1 {
        Err(DecodeError::Duplicate(key))
    } else {
        Ok(find_entry(entries, key.name()))
    }
}

/// Reads the text under `key`, which has to be there.
fn decode_required_text(entries: &Vec<(String, Document)>, key: Key) -> (decoded: Result<
    String,
    DecodeError,
>)
    ensures
        decoded_view(decoded) == required_text(entries_view(entries@), key),
{
    match find_single(entries, key)? {
        None => Err(DecodeError::Missing(key)),
        Some(value) => match value {
            Document::Null => Err(DecodeError::Missing(key)),
            Document::Text(text) => Ok(text.clone()),
            _ => Err(DecodeError::Mismatch(key)),
        },
    }
}

/// Reads the text under `key`, if there is one.
fn decode_optional_text(entries: &Vec<(String, Document)>, key: Key) -> (decoded: Result<
    Option<String>,
    DecodeError,
>)
    ensures
        decoded_view(decoded) == optional_text(entries_view(entries@), key),
{
    match find_single(entries, key)? {
        None => Ok(None),
        Some(value) => match value {
            Document::Null => Ok(None),
            Document::Text(text) => Ok(Some(text.clone())),
            _ => Err(DecodeError::Mismatch(key)),
        },
    }
}

/// Reads the number under `key`, if there is one.
fn decode_optional_number(entries: &Vec<(String, Document)>, key: Key) -> (decoded: Result<
    Option<u32>,
    DecodeError,
>)
    ensures
        decoded_view(decoded) == optional_number(entries_view(entries@), key),
{
    match find_single(entries, key)? {
        None => Ok(None),
        Some(value) => match value {
            Document::Null => Ok(None),
            Document::Number(number) => {
                if *number <= 0xffff_ffff {
                    Ok(Some(*number as u32))
                } else {
                    Err(DecodeError::Mismatch(key))
                }
            },
            _ => Err(DecodeError::Mismatch(key)),
        },
    }
}

/// Reads the items of a list as texts; `None` where one of them is no text.
fn decode_texts(items: &Vec<Document>) -> (decoded: Option<Vec<String>>)
    ensures
        decoded.deep_view() == texts_decoded(items_view(items@)),
{
    let ghost all = items_view(items@);
    let mut texts: Vec<String> = Vec::new();
    let mut i: usize = 0;
    while i < items.len()
        invariant
            i <= items.len(),
            all == items_view(items@),
            texts.len() == i,
            forall|k: int| 0 <= k < i ==> #[trigger] all[k] == DocumentView::Text(texts[k]@),
        decreases items.len() - i,
    {
        assert(all[i as int] == items[i as int]@);
        match &items[i] {
            Document::Text(text) => {
                texts.push(text.clone());
            },
            _ => {
                assert(!(all[i as int] is Text));
                return None;
            },
        }
        i += 1;
    }
    assert(texts.deep_view() =~= all.map_values(|item: DocumentView| item->Text_0));
    Some(texts)
}

/// Reads the list of texts under `key`, which has to be there.
fn decode_required_texts(entries: &Vec<(String, Document)>, key: Key) -> (decoded: Result<
    Vec<String>,
    DecodeError,
>)
    ensures
        decoded_view(decoded) == required_texts(entries_view(entries@), key),
{
    match find_single(entries, key)? {
        None => Err(DecodeError::Missing(key)),
        Some(value) => match value {
            Document::Null => Err(DecodeError::Missing(key)),
            Document::List(items) => {
                proof {
                    lemma_list_view(*items);
                }
                match decode_texts(items) {
                    Some(texts) => Ok(texts),
                    None => Err(DecodeError::Mismatch(key)),
                }
            },
            _ => Err(DecodeError::Mismatch(key)),
        },
    }
}

/// Reads the list of texts under `key`, if there is one.
fn decode_optional_texts(entries: &Vec<(String, Document)>, key: Key) -> (decoded: Result<
    Option<Vec<String>>,
    DecodeError,
>)
    ensures
        decoded_view(decoded) == optional_texts(entries_view(entries@), key),
{
    match find_single(entries, key)? {
        None => Ok(None),
        Some(value) => match value {
            Document::Null => Ok(None),
            Document::List(items) => {
                proof {
                    lemma_list_view(*items);
                }
                match decode_texts(items) {
                    Some(texts) => Ok(Some(texts)),
                    None => Err(DecodeError::Mismatch(key)),
                }
            },
            _ => Err(DecodeError::Mismatch(key)),
        },
    }
}

/// Reads the items of a list as job types; `None` where one of them is not
/// the label of a job type.
fn decode_job_types(items: &Vec<Document>) -> (decoded: Option<Vec<JobType>>)
    ensures
        decoded.deep_view() == job_types_decoded(items_view(items@)),
{
    let ghost all = items_view(items@);
    let mut job_types: Vec<JobType> = Vec::new();
    let mut i: usize = 0;
    while i < items.len()
        invariant
            i <= items.len(),
            all == items_view(items@),
            job_types.len() == i,
            forall|k: int|
                0 <= k < i ==> is_job_type_label(#[trigger] all[k]) && JobType::of_label(
                    all[k]->Text_0,
                ) == Some(job_types[k]),
        decreases items.len() - i,
    {
        assert(all[i as int] == items[i as int]@);
        match &items[i] {
            Document::Text(label) => match JobType::from_label(label.as_str()) {
                Some(job_type) => {
                    job_types.push(job_type);
                },
                None => {
                    assert(!is_job_type_label(all[i as int]));
                    return None;
                },
            },
            _ => {
                assert(!is_job_type_label(all[i as int]));
                return None;
            },
        }
        i += 1;
    }
    assert(job_types.deep_view() =~= all.map_values(
        |item: DocumentView| JobType::of_label(item->Text_0)->0,
    ));
    Some(job_types)
}

/// Reads the list of job types under `key`, which has to be there.
fn decode_required_job_types(entries: &Vec<(String, Document)>, key: Key) -> (decoded: Result<
    Vec<JobType>,
    DecodeError,
>)
    ensures
        decoded_view(decoded) == required_job_types(entries_view(entries@), key),
{
    match find_single(entries, key)? {
        None => Err(DecodeError::Missing(key)),
        Some(value) => match value {
            Document::Null => Err(DecodeError::Missing(key)),
            Document::List(items) => {
                proof {
                    lemma_list_view(*items);
                }
                match decode_job_types(items) {
                    Some(job_types) => Ok(job_types),
                    None => Err(DecodeError::Mismatch(key)),
                }
            },
            _ => Err(DecodeError::Mismatch(key)),
        },
    }
}

/// Reads a contact from a record. An entry that is missing or `Null` leaves
/// its field absent.
pub fn decode_contact(document: &Document) -> (decoded: Result<Contact, DecodeError>)
    ensures
        decoded_view(decoded) == contact_decoded(document@),
{
    match document {
        Document::Record(entries) => {
            proof {
                lemma_record_view(*entries);
            }
            let name = decode_optional_text(entries, Key::Name)?;
            let email = decode_optional_text(entries, Key::Email)?;
            let phone = decode_optional_text(entries, Key::Phone)?;
            let linkedin = decode_optional_text(entries, Key::Linkedin)?;
            let github = decode_optional_text(entries, Key::Github)?;
            let portfolio = decode_optional_text(entries, Key::Portfolio)?;
            Ok(Contact { name, email, phone, linkedin, github, portfolio })
        },
        _ => Err(DecodeError::NotARecord),
    }
}

/// Reads the contact under `key`, if there is one.
fn decode_optional_contact(entries: &Vec<(String, Document)>, key: Key) -> (decoded: Result<
    Option<Contact>,
    DecodeError,
>)
    ensures
        decoded_view(decoded) == optional_contact(entries_view(entries@), key),
{
    match find_single(entries, key)? {
        None => Ok(None),
        Some(value) => match value {
            Document::Null => Ok(None),
            Document::Record(_) => match decode_contact(value) {
                Ok(contact) => Ok(Some(contact)),
                Err(error) => Err(error),
            },
            _ => Err(DecodeError::Mismatch(key)),
        },
    }
}

/// Reads the fields of the listing site from a record. Each of them has to
/// be there.
pub fn decode_manual(document: &Document) -> (decoded: Result<ManualListingInfo, DecodeError>)
    ensures
        decoded_view(decoded) == manual_decoded(document@),
{
    match document {
        Document::Record(entries) => {
            proof {
                lemma_record_view(*entries);
            }
            let company = decode_required_text(entries, Key::Company)?;
            let title = decode_required_text(entries, Key::Title)?;
            let job_type = decode_required_job_types(entries, Key::JobType)?;
            let locations = decode_required_texts(entries, Key::Locations)?;
            let application_link = decode_required_text(entries, Key::ApplicationLink)?;
            let karriere_id = decode_required_text(entries, Key::KarriereId)?;
            assert(job_type.deep_view() =~= job_type@);
            Ok(
                ManualListingInfo {
                    company,
                    title,
                    job_type,
                    locations,
                    application_link,
                    karriere_id,
                },
            )
        },
        _ => Err(DecodeError::NotARecord),
    }
}

/// Reads the inferred fields from a record. An entry that is missing or
/// `Null` leaves its field absent: nothing is put in its place.
pub fn decode_ai(document: &Document) -> (decoded: Result<AIListingInfo, DecodeError>)
    ensures
        decoded_view(decoded) == ai_decoded(document@),
{
    match document {
        Document::Record(entries) => {
            proof {
                lemma_record_view(*entries);
            }
            let description = decode_optional_text(entries, Key::Description)?;
            let salary_min = decode_optional_number(entries, Key::SalaryMin)?;
            let salary_max = decode_optional_number(entries, Key::SalaryMax)?;
            let contact = decode_optional_contact(entries, Key::Contact)?;
            let perks = decode_optional_texts(entries, Key::Perks)?;
            let requirements = decode_optional_texts(entries, Key::Requirements)?;
            let responsibilities = decode_optional_texts(entries, Key::Responsibilities)?;
            Ok(
                AIListingInfo {
                    description,
                    salary_min,
                    salary_max,
                    contact,
                    perks,
                    requirements,
                    responsibilities,
                },
            )
        },
        _ => Err(DecodeError::NotARecord),
    }
}

/// Reads a listing from a record of its two parts.
pub fn decode_listing(document: &Document) -> (decoded: Result<Listing, DecodeError>)
    ensures
        decoded_view(decoded) == listing_decoded(document@),
{
    match document {
        Document::Record(entries) => {
            proof {
                lemma_record_view(*entries);
            }
            let manual_listing_info = match find_single(entries, Key::ManualListingInfo)? {
                None => {
                    return Err(DecodeError::Missing(Key::ManualListingInfo));
                },
                Some(value) => match value {
                    Document::Null => {
                        return Err(DecodeError::Missing(Key::ManualListingInfo));
                    },
                    Document::Record(_) => decode_manual(value)?,
                    _ => {
                        return Err(DecodeError::Mismatch(Key::ManualListingInfo));
                    },
                },
            };
            let ai_listing_info = match find_single(entries, Key::AiListingInfo)? {
                None => AIListingInfo::absent(),
                Some(value) => match value {
                    Document::Null => AIListingInfo::absent(),
                    Document::Record(_) => decode_ai(value)?,
                    _ => {
                        return Err(DecodeError::Mismatch(Key::AiListingInfo));
                    },
                },
            };
            Ok(Listing { manual_listing_info, ai_listing_info })
        },
        _ => Err(DecodeError::NotARecord),
    }
}

} // verus!
