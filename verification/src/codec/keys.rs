//! The names of the entries of a listing's document, and what can go wrong
//! when one is read.

use vstd::prelude::*;

verus! {

/// The names under which the fields of a listing are written.
#[derive(Clone, Copy, Debug, PartialEq, Eq, Hash, Structural)]
pub enum Key {
    ManualListingInfo,
    AiListingInfo,
    Company,
    Title,
    JobType,
    Locations,
    ApplicationLink,
    KarriereId,
    Description,
    SalaryMin,
    SalaryMax,
    Contact,
    Perks,
    Requirements,
    Responsibilities,
    Name,
    Email,
    Phone,
    Linkedin,
    Github,
    Portfolio,
}

/// Why a document could not be read as a listing or a part of one.
#[derive(Clone, Copy, Debug, PartialEq, Eq, Structural)]
pub enum DecodeError {
    /// The document is not a record.
    NotARecord,
    /// The record has more than one entry of this name.
    Duplicate(Key),
    /// The record has no entry of this name, and the field is required.
    Missing(Key),
    /// The entry of this name holds a value of the wrong kind: not the text,
    /// number, list or record that the field takes, a number too large for
    /// it, or a label that names no job type.
    Mismatch(Key),
}

/// The name of a key as it is written in a document.
pub open spec fn key_name(key: Key) -> Seq<char> {
    match key {
        Key::ManualListingInfo => "manual_listing_info"@,
        Key::AiListingInfo => "ai_listing_info"@,
        Key::Company => "company"@,
        Key::Title => "title"@,
        Key::JobType => "job_type"@,
        Key::Locations => "locations"@,
        Key::ApplicationLink => "application_link"@,
        Key::KarriereId => "karriere_id"@,
        Key::Description => "description"@,
        Key::SalaryMin => "salary_min"@,
        Key::SalaryMax => "salary_max"@,
        Key::Contact => "contact"@,
        Key::Perks => "perks"@,
        Key::Requirements => "requirements"@,
        Key::Responsibilities => "responsibilities"@,
        Key::Name => "name"@,
        Key::Email => "email"@,
        Key::Phone => "phone"@,
        Key::Linkedin => "linkedin"@,
        Key::Github => "github"@,
        Key::Portfolio => "portfolio"@,
    }
}

impl Key {
    /// The name of the key as it is written in a document.
    pub fn name(&self) -> (name: &'static str)
        ensures
            name@ == key_name(*self),
    {
        match self {
            Key::ManualListingInfo => "manual_listing_info",
            Key::AiListingInfo => "ai_listing_info",
            Key::Company => "company",
            Key::Title => "title",
            Key::JobType => "job_type",
            Key::Locations => "locations",
            Key::ApplicationLink => "application_link",
            Key::KarriereId => "karriere_id",
            Key::Description => "description",
            Key::SalaryMin => "salary_min",
            Key::SalaryMax => "salary_max",
            Key::Contact => "contact",
            Key::Perks => "perks",
            Key::Requirements => "requirements",
            Key::Responsibilities => "responsibilities",
            Key::Name => "name",
            Key::Email => "email",
            Key::Phone => "phone",
            Key::Linkedin => "linkedin",
            Key::Github => "github",
            Key::Portfolio => "portfolio",
        }
    }
}

/// No two keys are written alike.
pub proof fn lemma_key_names_differ()
    ensures
        forall|a: Key, b: Key| #![trigger key_name(a), key_name(b)] a != b ==> key_name(a) != key_name(b),
{
    reveal_strlit("manual_listing_info");
    reveal_strlit("ai_listing_info");
    reveal_strlit("company");
    reveal_strlit("title");
    reveal_strlit("job_type");
    reveal_strlit("locations");
    reveal_strlit("application_link");
    reveal_strlit("karriere_id");
    reveal_strlit("description");
    reveal_strlit("salary_min");
    reveal_strlit("salary_max");
    reveal_strlit("contact");
    reveal_strlit("perks");
    reveal_strlit("requirements");
    reveal_strlit("responsibilities");
    reveal_strlit("name");
    reveal_strlit("email");
    reveal_strlit("phone");
    reveal_strlit("linkedin");
    reveal_strlit("github");
    reveal_strlit("portfolio");
    assert forall|a: Key, b: Key| #![trigger key_name(a), key_name(b)] a != b implies key_name(a)
        != key_name(b) by {
        let x = key_name(a);
        let y = key_name(b);
        if x.len() == y.len() {
            assert(x[0] != y[0] || x[1] != y[1] || x[2] != y[2] || x[x.len() - 2] != y[x.len() - 2]);
        }
    }
}

} // verus!
