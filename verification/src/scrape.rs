//! Reading the fields of a listing out of its page.
//!
//! Four values are looked up by fixed selectors: the text of the title
//! heading, the text of the company link, the locations attribute of one list
//! item and the text of another with the employment types. The page is parsed
//! and queried by the `scraper` crate; everything that is decided on the four
//! values is decided here.
//!
//! Each lookup parses the page anew. The parsed document never leaves the
//! function that asks `scraper`, so that what is assumed of `scraper` can be
//! said of texts alone: the page, the selector, and the text that was found.
//!
//! `scraper` keeps text in buffers of limited length and panics where one
//! would grow beyond it, so a page over `MAX_PAGE_BYTES` is turned away
//! before it is parsed.

use vstd::prelude::*;
use vstd::utf8::encode_utf8;
use scraper::Html;
use scraper::Selector;
use crate::error::Field;
use crate::error::ParseError;
use crate::error::ParseErrorView;
use crate::job_type::has_comma_in_label;
use crate::job_type::job_types_from_labels;
use crate::job_type::job_types_of;
use crate::job_type::job_types_view;
use crate::job_type::labels_of;
use crate::job_type::lemma_first_unknown_label;
use crate::job_type::lemma_job_types_of;
use crate::job_type::lemma_label_names_its_type;
use crate::job_type::lemma_labels_are_trimmed;
use crate::job_type::lemma_labels_without_comma;
use crate::job_type::JobType;
use crate::model::ScrapedInfo;
use crate::model::ScrapedInfoView;
use crate::text::count_of;
use crate::text::joined;
use crate::text::lemma_joined_pieces;
use crate::text::lemma_pieces_count;
use crate::text::lemma_pieces_hold_no_separator;
use crate::text::lemma_pieces_of_joined;
use crate::text::lemma_trimmed_cut;
use crate::text::pieces;
use crate::text::split_trimmed;
use crate::text::trimmed;
use crate::text::trimmed_pieces;

verus! {

/// Selects the heading that holds the job title.
pub const TITLE_SELECTOR: &'static str = "h1.m-jobHeader__jobTitle";

/// Selects the link that holds the company name.
pub const COMPANY_NAME_SELECTOR: &'static str = "a.m-jobHeader__companyLink";

/// Selects the list item that carries the locations.
pub const LOCATIONS_SELECTOR: &'static str = "li.jobHeader__jobLocations";

/// The attribute of the locations item that lists the locations.
pub const LOCATIONS_ATTRIBUTE: &'static str = "data-job-locations";

/// Selects the list item that holds the employment types.
pub const EMPLOYMENT_TYPES_SELECTOR: &'static str = "li.m-jobHeader__jobEmploymentTypes";

/// The character between the entries of a list on the page.
pub const LIST_SEPARATOR: char = ',';

/// The largest page that is parsed, in bytes: 256 MiB.
///
/// The parser holds the page, and each text, attribute value and comment it
/// makes of it, in a buffer of the `tendril` crate. Such a buffer panics
/// where it would pass 4 GiB or where its capacity, the next power of two,
/// does not fit 32 bits; and parsing can write three bytes for one byte of
/// the page (a replacement character for a NUL). With this limit no buffer
/// is asked to hold more than 1 GiB, on a machine of 32 bits too.
pub const MAX_PAGE_BYTES: usize = 0x1000_0000;

/// The longest selector that is handed to the parser of selectors, in
/// characters.
pub const MAX_SELECTOR_CHARS: usize = 64;

/// Whether a page is small enough to be parsed: its UTF-8 encoding has at
/// most `MAX_PAGE_BYTES` bytes.
pub open spec fn fits_parser(page: Seq<char>) -> bool {
    encode_utf8(page).len() <= MAX_PAGE_BYTES
}

/// Whether a selector is short enough to be parsed.
pub open spec fn is_short_selector(selector: Seq<char>) -> bool {
    selector.len() <= MAX_SELECTOR_CHARS
}

/// Whether a selector holds no pseudo-class: no `:` stands in it. Such a
/// selector nests no other selector and asks nothing of the elements below
/// the one it is held against.
pub open spec fn is_plain_selector(selector: Seq<char>) -> bool {
    forall|i: int| 0 <= i < selector.len() ==> selector[i] != ':'
}

/// The first text node inside the first element of `page` that `selector`
/// matches, as `scraper` finds it; `None` where there is none.
pub uninterp spec fn first_text_of(page: Seq<char>, selector: Seq<char>) -> Option<Seq<char>>;

/// The value of the attribute `name` on the first element of `page` that
/// `selector` matches, as `scraper` finds it; `None` where there is none.
pub uninterp spec fn first_attribute_of(page: Seq<char>, selector: Seq<char>, name: Seq<char>) -> Option<Seq<char>>;

/// Parses `page` with `scraper::Html::parse_document`, takes the first
/// element that `scraper::Html::select` yields for `selector`, and returns
/// the first item of `scraper::ElementRef::text` on it. The result is `None`
/// where `scraper::Selector::parse` rejects the selector, where no element
/// matches, and where the element holds no text node.
///
/// Not proved: that the result is a function of the two texts alone, which
/// is all the contract claims. Parsing does not fail; it repairs what it
/// can.
///
/// Left out are the inputs on which the call might not return. A page over
/// `MAX_PAGE_BYTES` could overflow a buffer of the parser. A selector with a
/// pseudo-class could overflow the stack: `:has(..)` is matched by recursion
/// over the nesting of the page, one step for each level, and `:is(..)`,
/// `:not(..)` and the like are parsed by recursion over their own nesting. A
/// selector without `:` is matched against an element and its ancestors by a
/// loop, and in no more steps of recursion than it has parts.
#[verifier::external_body]
fn select_first_text(page: &str, selector: &str) -> (found: Option<String>)
    requires
        fits_parser(page@),
        is_short_selector(selector@),
        is_plain_selector(selector@),
    ensures
        found.deep_view() == first_text_of(page@, selector@),
{
    let selector = Selector::parse(selector).ok()?;
    let document = Html::parse_document(page);
    let element = document.select(&selector).next()?;
    element.text().next().map(str::to_owned)
}

/// Parses `page` with `scraper::Html::parse_document`, takes the first
/// element that `scraper::Html::select` yields for `selector`, and returns
/// what `scraper::node::Element::attr` gives for `name` on it. The result is
/// `None` where `scraper::Selector::parse` rejects the selector, where no
/// element matches, and where the element lacks the attribute.
///
/// Not proved: that the result is a function of the three texts alone, which
/// is all the contract claims.
///
/// Left out are the inputs on which the call might not return, as for
/// `select_first_text`: a page over `MAX_PAGE_BYTES`, and a selector that is
/// long or holds a pseudo-class, which is parsed and matched by recursion.
#[verifier::external_body]
fn select_first_attribute(page: &str, selector: &str, name: &str) -> (found: Option<String>)
    requires
        fits_parser(page@),
        is_short_selector(selector@),
        is_plain_selector(selector@),
    ensures
        found.deep_view() == first_attribute_of(page@, selector@, name@),
{
    let selector = Selector::parse(selector).ok()?;
    let document = Html::parse_document(page);
    let element = document.select(&selector).next()?;
    element.value().attr(name).map(str::to_owned)
}

/// What `scraped` is in specifications.
pub open spec fn scraped_view(scraped: Result<ScrapedInfo, ParseError>) -> Result<
    ScrapedInfoView,
    ParseErrorView,
> {
    match scraped {
        Ok(info) => Ok(info@),
        Err(error) => Err(error@),
    }
}

/// The locations that an attribute value lists: its pieces between commas,
/// in order and with repetitions, each without the white space around it.
pub open spec fn locations_of(value: Seq<char>) -> Seq<Seq<char>> {
    trimmed_pieces(value, LIST_SEPARATOR)
}

/// The employment types that a text lists: the categories that its trimmed
/// pieces between commas name, or the first piece that names none.
pub open spec fn employment_types_of(text: Seq<char>) -> Result<Seq<JobType>, ParseErrorView> {
    job_types_of(trimmed_pieces(text, LIST_SEPARATOR))
}

/// The listing fields that the four values found on a page give. A value
/// that was not found is an error, the first one in the order title, company,
/// locations, employment types; an employment type outside the table is one
/// too. Nothing is filled in.
pub open spec fn assembled(
    title: Option<Seq<char>>,
    company: Option<Seq<char>>,
    locations: Option<Seq<char>>,
    employment_types: Option<Seq<char>>,
) -> Result<ScrapedInfoView, ParseErrorView> {
    if title is None {
        Err(ParseErrorView::Missing(Field::Title))
    } else if company is None {
        Err(ParseErrorView::Missing(Field::Company))
    } else if locations is None {
        Err(ParseErrorView::Missing(Field::Locations))
    } else if employment_types is None {
        Err(ParseErrorView::Missing(Field::EmploymentTypes))
    } else {
        match employment_types_of(employment_types->0) {
            Err(error) => Err(error),
            Ok(job_type) => Ok(
                ScrapedInfoView {
                    company: company->0,
                    title: title->0,
                    job_type,
                    locations: locations_of(locations->0),
                },
            ),
        }
    }
}

/// Splits the value of the locations attribute into the locations it lists.
pub fn parse_locations(value: &str) -> (locations: Vec<String>)
    ensures
        locations.deep_view() == locations_of(value@),
{
    split_trimmed(value, LIST_SEPARATOR)
}

/// Splits the employment-types text and maps each entry to its category.
/// Fails on the first entry that is not in the label table.
pub fn parse_employment_types(text: &str) -> (parsed: Result<Vec<JobType>, ParseError>)
    ensures
        job_types_view(parsed) == employment_types_of(text@),
{
    let labels = split_trimmed(text, LIST_SEPARATOR);
    job_types_from_labels(&labels)
}

/// Puts the listing fields together from the four values looked up on a
/// page, each `None` where the page did not have it.
pub fn assemble(
    title: Option<String>,
    company: Option<String>,
    locations: Option<String>,
    employment_types: Option<String>,
) -> (scraped: Result<ScrapedInfo, ParseError>)
    ensures
        scraped_view(scraped) == assembled(
            title.deep_view(),
            company.deep_view(),
            locations.deep_view(),
            employment_types.deep_view(),
        ),
{
    let title = match title {
        Some(title) => title,
        None => {
            return Err(ParseError::Missing(Field::Title));
        },
    };
    let company = match company {
        Some(company) => company,
        None => {
            return Err(ParseError::Missing(Field::Company));
        },
    };
    let locations = match locations {
        Some(value) => parse_locations(value.as_str()),
        None => {
            return Err(ParseError::Missing(Field::Locations));
        },
    };
    let job_type = match employment_types {
        Some(text) => match parse_employment_types(text.as_str()) {
            Ok(job_type) => job_type,
            Err(error) => {
                return Err(error);
            },
        },
        None => {
            return Err(ParseError::Missing(Field::EmploymentTypes));
        },
    };
    Ok(ScrapedInfo { company, title, job_type, locations })
}

/// What a page gives: an error where it is too large to be parsed, else what
/// is assembled from the four values that `scraper` finds under the fixed
/// selectors.
pub open spec fn scraped_from(page: Seq<char>) -> Result<ScrapedInfoView, ParseErrorView> {
    if !fits_parser(page) {
        Err(ParseErrorView::PageTooLarge)
    } else {
        assembled(
            first_text_of(page, TITLE_SELECTOR@),
            first_text_of(page, COMPANY_NAME_SELECTOR@),
            first_attribute_of(page, LOCATIONS_SELECTOR@, LOCATIONS_ATTRIBUTE@),
            first_text_of(page, EMPLOYMENT_TYPES_SELECTOR@),
        )
    }
}

/// Tells whether a page is small enough to be parsed.
pub fn page_fits(page: &str) -> (fits: bool)
    ensures
        fits == fits_parser(page@),
{
    page.as_bytes().len() <= MAX_PAGE_BYTES
}

/// Reads the listing fields out of the text of a listing page.
///
/// A page over `MAX_PAGE_BYTES` is an error and is not parsed. Of any other
/// page the four values are looked up, and what is made of them is
/// `assembled`.
pub fn scrape_info(page: &str) -> (scraped: Result<ScrapedInfo, ParseError>)
    ensures
        scraped_view(scraped) == scraped_from(page@),
{
    if !page_fits(page) {
        return Err(ParseError::PageTooLarge);
    }
    proof {
        reveal_strlit("h1.m-jobHeader__jobTitle");
        reveal_strlit("a.m-jobHeader__companyLink");
        reveal_strlit("li.jobHeader__jobLocations");
        reveal_strlit("li.m-jobHeader__jobEmploymentTypes");
    }
    let title = select_first_text(page, TITLE_SELECTOR);
    let company = select_first_text(page, COMPANY_NAME_SELECTOR);
    let locations = select_first_attribute(page, LOCATIONS_SELECTOR, LOCATIONS_ATTRIBUTE);
    let employment_types = select_first_text(page, EMPLOYMENT_TYPES_SELECTOR);
    assemble(title, company, locations, employment_types)
}

/// Nothing is filled in. The fields are there exactly where the page had all
/// four values and every employment type is in the table; the title and the
/// company are then the texts that were found, and the locations are the
/// entries of the attribute.
pub proof fn lemma_assembled_needs_every_value(
    title: Option<Seq<char>>,
    company: Option<Seq<char>>,
    locations: Option<Seq<char>>,
    employment_types: Option<Seq<char>>,
)
    ensures
        assembled(title, company, locations, employment_types) is Ok <==> {
            &&& title is Some
            &&& company is Some
            &&& locations is Some
            &&& employment_types is Some
            &&& employment_types_of(employment_types->0) is Ok
        },
        assembled(title, company, locations, employment_types) matches Ok(info) ==> {
            &&& info.title == title->0
            &&& info.company == company->0
            &&& info.locations == locations_of(locations->0)
            &&& Ok::<Seq<JobType>, ParseErrorView>(info.job_type) == employment_types_of(
                employment_types->0,
            )
        },
{
}

/// The locations of a page are the entries of its locations attribute. Where
/// the page is small enough to be parsed, all four values are found and
/// every employment type is in the table, the fields are read, and the
/// locations are the trimmed pieces of the attribute between commas: one more
/// than it has commas, in the order of the attribute, none left out and none
/// put together, so that the untrimmed pieces joined by commas are the
/// attribute again.
pub proof fn lemma_locations_are_the_entries_of_the_attribute(page: Seq<char>)
    requires
        fits_parser(page),
        first_text_of(page, TITLE_SELECTOR@) is Some,
        first_text_of(page, COMPANY_NAME_SELECTOR@) is Some,
        first_attribute_of(page, LOCATIONS_SELECTOR@, LOCATIONS_ATTRIBUTE@) is Some,
        first_text_of(page, EMPLOYMENT_TYPES_SELECTOR@) is Some,
        employment_types_of(first_text_of(page, EMPLOYMENT_TYPES_SELECTOR@)->0) is Ok,
    ensures
        scraped_from(page) is Ok,
        ({
            let value = first_attribute_of(page, LOCATIONS_SELECTOR@, LOCATIONS_ATTRIBUTE@)->0;
            let locations = scraped_from(page)->Ok_0.locations;
            &&& locations.len() == 1 + count_of(value, LIST_SEPARATOR)
            &&& locations.len() == pieces(value, LIST_SEPARATOR).len()
            &&& forall|i: int|
                0 <= i < locations.len() ==> #[trigger] locations[i] == trimmed(
                    pieces(value, LIST_SEPARATOR)[i],
                )
            &&& joined(pieces(value, LIST_SEPARATOR), LIST_SEPARATOR) == value
        }),
{
    let value = first_attribute_of(page, LOCATIONS_SELECTOR@, LOCATIONS_ATTRIBUTE@)->0;
    lemma_pieces_count(value, LIST_SEPARATOR);
    lemma_joined_pieces(value, LIST_SEPARATOR);
}

/// What is written as the labels of job types with commas between them is
/// read as those job types, in their order and with their repetitions, where
/// there is at least one and none of them has a comma in its label.
pub proof fn lemma_listed_labels_are_read(job_types: Seq<JobType>)
    requires
        job_types.len() >= 1,
        forall|i: int| 0 <= i < job_types.len() ==> !has_comma_in_label(#[trigger] job_types[i]),
    ensures
        employment_types_of(joined(labels_of(job_types), LIST_SEPARATOR)) == Ok::<
            Seq<JobType>,
            ParseErrorView,
        >(job_types),
{
    let labels = labels_of(job_types);
    assert forall|k: int, j: int|
        0 <= k < labels.len() && 0 <= j < labels[k].len() implies labels[k][j]
        != LIST_SEPARATOR by {
        lemma_labels_without_comma(job_types[k]);
    }
    lemma_pieces_of_joined(labels, LIST_SEPARATOR);
    let read = trimmed_pieces(joined(labels, LIST_SEPARATOR), LIST_SEPARATOR);
    assert(read =~= labels) by {
        assert forall|k: int| 0 <= k < labels.len() implies trimmed(labels[k]) == labels[k] by {
            lemma_labels_are_trimmed(job_types[k]);
        }
    }
    assert forall|k: int| 0 <= k < labels.len() implies JobType::of_label(#[trigger] labels[k])
        == Some(job_types[k]) by {
        lemma_label_names_its_type(job_types[k]);
    }
    let at: int = lemma_first_unknown_label(labels);
    assert(job_types_of(labels)->Ok_0 =~= job_types);
}

/// The two labels that hold a comma are never read from a text: the text is
/// split at commas first, so no entry can be either of them. `Freelance` and
/// `DiplomaThesis` enter a listing by other ways only.
pub proof fn lemma_labels_with_comma_are_never_read(text: Seq<char>)
    ensures
        employment_types_of(text) matches Ok(types) ==> !types.contains(JobType::Freelance)
            && !types.contains(JobType::DiplomaThesis),
{
    if let Ok(types) = employment_types_of(text) {
        let raw = pieces(text, LIST_SEPARATOR);
        let labels = trimmed_pieces(text, LIST_SEPARATOR);
        lemma_job_types_of(labels);
        lemma_pieces_hold_no_separator(text, LIST_SEPARATOR);
        reveal_strlit("Freelancer*in, Projektarbeit");
        reveal_strlit("Diplomarbeit, Dissertation");
        assert forall|k: int| 0 <= k < types.len() implies types[k] != JobType::Freelance
            && types[k] != JobType::DiplomaThesis by {
            let bounds = lemma_trimmed_cut(raw[k]);
            let label = labels[k];
            assert(label == raw[k].subrange(bounds.0, bounds.1));
            assert(JobType::of_label(label) == Some(types[k]));
            if types[k] == JobType::Freelance {
                assert(label[13] == ',');
                assert(label[13] == raw[k][bounds.0 + 13]);
            }
            if types[k] == JobType::DiplomaThesis {
                assert(label[12] == ',');
                assert(label[12] == raw[k][bounds.0 + 12]);
            }
        }
    }
}

} // verus!
