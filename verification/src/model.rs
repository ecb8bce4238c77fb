//! The record of one job listing.
//!
//! A `Listing` is put together in two steps: the fields read from the page
//! (`ManualListingInfo`) and the fields that a language model infers from the
//! listing's free text (`AIListingInfo`), each of which may be absent.

use vstd::prelude::*;
use crate::job_type::JobType;

verus! {

/// How to reach the person behind a listing. Every entry may be absent.
#[derive(Clone, Debug, PartialEq, Eq)]
pub struct Contact {
    pub name: Option<String>,
    pub email: Option<String>,
    pub phone: Option<String>,
    pub linkedin: Option<String>,
    pub github: Option<String>,
    pub portfolio: Option<String>,
}

/// A `Contact` with its texts as sequences of characters.
pub struct ContactView {
    pub name: Option<Seq<char>>,
    pub email: Option<Seq<char>>,
    pub phone: Option<Seq<char>>,
    pub linkedin: Option<Seq<char>>,
    pub github: Option<Seq<char>>,
    pub portfolio: Option<Seq<char>>,
}

impl View for Contact {
    type V = ContactView;

    open spec fn view(&self) -> ContactView {
        ContactView {
            name: self.name.deep_view(),
            email: self.email.deep_view(),
            phone: self.phone.deep_view(),
            linkedin: self.linkedin.deep_view(),
            github: self.github.deep_view(),
            portfolio: self.portfolio.deep_view(),
        }
    }
}

impl DeepView for Contact {
    type V = ContactView;

    open spec fn deep_view(&self) -> ContactView {
        self@
    }
}

/// What the page itself says about a listing: title, company, employment
/// types and locations.
#[derive(Clone, Debug, PartialEq, Eq)]
pub struct ScrapedInfo {
    pub company: String,
    pub title: String,
    pub job_type: Vec<JobType>,
    pub locations: Vec<String>,
}

/// A `ScrapedInfo` with its texts as sequences of characters.
pub struct ScrapedInfoView {
    pub company: Seq<char>,
    pub title: Seq<char>,
    pub job_type: Seq<JobType>,
    pub locations: Seq<Seq<char>>,
}

impl View for ScrapedInfo {
    type V = ScrapedInfoView;

    open spec fn view(&self) -> ScrapedInfoView {
        ScrapedInfoView {
            company: self.company@,
            title: self.title@,
            job_type: self.job_type@,
            locations: self.locations.deep_view(),
        }
    }
}

impl DeepView for ScrapedInfo {
    type V = ScrapedInfoView;

    open spec fn deep_view(&self) -> ScrapedInfoView {
        self@
    }
}

/// The fields of a listing that are read from the listing site. All of them
/// are required.
#[derive(Clone, Debug, PartialEq, Eq)]
pub struct ManualListingInfo {
    pub company: String,
    pub title: String,
    pub job_type: Vec<JobType>,
    pub locations: Vec<String>,
    pub application_link: String,
    pub karriere_id: String,
}

/// A `ManualListingInfo` with its texts as sequences of characters.
pub struct ManualListingInfoView {
    pub company: Seq<char>,
    pub title: Seq<char>,
    pub job_type: Seq<JobType>,
    pub locations: Seq<Seq<char>>,
    pub application_link: Seq<char>,
    pub karriere_id: Seq<char>,
}

impl View for ManualListingInfo {
    type V = ManualListingInfoView;

    open spec fn view(&self) -> ManualListingInfoView {
        ManualListingInfoView {
            company: self.company@,
            title: self.title@,
            job_type: self.job_type@,
            locations: self.locations.deep_view(),
            application_link: self.application_link@,
            karriere_id: self.karriere_id@,
        }
    }
}

impl DeepView for ManualListingInfo {
    type V = ManualListingInfoView;

    open spec fn deep_view(&self) -> ManualListingInfoView {
        self@
    }
}

/// The fields of a listing that are inferred from its free text. Each one is
/// absent where nothing was found or the inference was skipped.
#[derive(Clone, Debug, PartialEq, Eq)]
pub struct AIListingInfo {
    pub description: Option<String>,
    pub salary_min: Option<u32>,
    pub salary_max: Option<u32>,
    pub contact: Option<Contact>,
    pub perks: Option<Vec<String>>,
    pub requirements: Option<Vec<String>>,
    pub responsibilities: Option<Vec<String>>,
}

/// An `AIListingInfo` with its texts as sequences of characters.
pub struct AIListingInfoView {
    pub description: Option<Seq<char>>,
    pub salary_min: Option<u32>,
    pub salary_max: Option<u32>,
    pub contact: Option<ContactView>,
    pub perks: Option<Seq<Seq<char>>>,
    pub requirements: Option<Seq<Seq<char>>>,
    pub responsibilities: Option<Seq<Seq<char>>>,
}

impl View for AIListingInfo {
    type V = AIListingInfoView;

    open spec fn view(&self) -> AIListingInfoView {
        AIListingInfoView {
            description: self.description.deep_view(),
            salary_min: self.salary_min,
            salary_max: self.salary_max,
            contact: self.contact.deep_view(),
            perks: self.perks.deep_view(),
            requirements: self.requirements.deep_view(),
            responsibilities: self.responsibilities.deep_view(),
        }
    }
}

impl DeepView for AIListingInfo {
    type V = AIListingInfoView;

    open spec fn deep_view(&self) -> AIListingInfoView {
        self@
    }
}

/// One job posting: what was read from the page and what was inferred.
#[derive(Clone, Debug, PartialEq, Eq)]
pub struct Listing {
    pub manual_listing_info: ManualListingInfo,
    pub ai_listing_info: AIListingInfo,
}

/// A `Listing` with its texts as sequences of characters.
pub struct ListingView {
    pub manual_listing_info: ManualListingInfoView,
    pub ai_listing_info: AIListingInfoView,
}

impl View for Listing {
    type V = ListingView;

    open spec fn view(&self) -> ListingView {
        ListingView {
            manual_listing_info: self.manual_listing_info@,
            ai_listing_info: self.ai_listing_info@,
        }
    }
}

impl DeepView for Listing {
    type V = ListingView;

    open spec fn deep_view(&self) -> ListingView {
        self@
    }
}

impl Contact {
    /// A contact of which nothing is known.
    pub fn absent() -> (contact: Contact)
        ensures
            contact@ == (ContactView {
                name: None,
                email: None,
                phone: None,
                linkedin: None,
                github: None,
                portfolio: None,
            }),
    {
        Contact {
            name: None,
            email: None,
            phone: None,
            linkedin: None,
            github: None,
            portfolio: None,
        }
    }
}

impl ManualListingInfo {
    /// Completes what was read from the page with the two values that are
    /// not on it: the link to apply under and the listing's identifier on
    /// the site.
    pub fn from_scraped(scraped: ScrapedInfo, application_link: String, karriere_id: String) -> (info:
        ManualListingInfo)
        ensures
            info@ == (ManualListingInfoView {
                company: scraped@.company,
                title: scraped@.title,
                job_type: scraped@.job_type,
                locations: scraped@.locations,
                application_link: application_link@,
                karriere_id: karriere_id@,
            }),
    {
        ManualListingInfo {
            company: scraped.company,
            title: scraped.title,
            job_type: scraped.job_type,
            locations: scraped.locations,
            application_link,
            karriere_id,
        }
    }
}

impl AIListingInfo {
    /// The inferred fields with every one of them absent.
    pub open spec fn absent_view() -> AIListingInfoView {
        AIListingInfoView {
            description: None,
            salary_min: None,
            salary_max: None,
            contact: None,
            perks: None,
            requirements: None,
            responsibilities: None,
        }
    }

    /// The inferred fields of a listing for which nothing was inferred: each
    /// of them is absent.
    pub fn absent() -> (info: AIListingInfo)
        ensures
            info@ == AIListingInfo::absent_view(),
    {
        AIListingInfo {
            description: None,
            salary_min: None,
            salary_max: None,
            contact: None,
            perks: None,
            requirements: None,
            responsibilities: None,
        }
    }
}

impl Listing {
    /// Puts a listing together from its two parts.
    pub fn new(manual_listing_info: ManualListingInfo, ai_listing_info: AIListingInfo) -> (listing:
        Listing)
        ensures
            listing@ == (ListingView {
                manual_listing_info: manual_listing_info@,
                ai_listing_info: ai_listing_info@,
            }),
    {
        Listing { manual_listing_info, ai_listing_info }
    }

    /// The listing with the fields read from the page and nothing inferred.
    pub fn from_manual(manual_listing_info: ManualListingInfo) -> (listing: Listing)
        ensures
            listing@.manual_listing_info == manual_listing_info@,
            listing@.ai_listing_info == AIListingInfo::absent_view(),
    {
        Listing { manual_listing_info, ai_listing_info: AIListingInfo::absent() }
    }
}

} // verus!
