//! The lines that a run prints for a listing.

use vstd::prelude::*;
use crate::job_type::labels_of;
use crate::job_type::JobType;
use crate::model::ScrapedInfo;
use crate::model::ScrapedInfoView;

verus! {

/// How std's `Debug` writes a list of strings: in square brackets, each one
/// in double quotes with its special characters escaped, a comma and a space
/// between them.
pub uninterp spec fn debug_list_of(items: Seq<Seq<char>>) -> Seq<char>;

/// Formats `items` with `{:?}`, which is `<Vec<String> as Debug>::fmt` of
/// std.
///
/// Not proved: that the text is a function of the strings alone, which is
/// all the contract claims.
#[verifier::external_body]
fn debug_list(items: &Vec<String>) -> (text: String)
    ensures
        text@ == debug_list_of(items.deep_view()),
{
    format!("{:?}", items)
}

/// The four lines of a listing, given how each list is written: title,
/// company, locations, employment types.
pub open spec fn report_lines(info: ScrapedInfoView, locations: Seq<char>, labels: Seq<char>) -> Seq<
    Seq<char>,
> {
    seq![
        "Title: "@ + info.title,
        "Company Name: "@ + info.company,
        "Locations: "@ + locations,
        "Employment Types: "@ + labels,
    ]
}

/// The four lines of `info`, the lists written as std's `Debug` writes them
/// and the employment types under their labels.
pub open spec fn report_of(info: ScrapedInfoView) -> Seq<Seq<char>> {
    report_lines(
        info,
        debug_list_of(info.locations),
        debug_list_of(labels_of(info.job_type)),
    )
}

/// Returns the labels of `job_types`, in order.
pub fn labels(job_types: &Vec<JobType>) -> (labels: Vec<String>)
    ensures
        labels.deep_view() == labels_of(job_types@),
{
    let mut labels: Vec<String> = Vec::new();
    let mut i: usize = 0;
    while i < job_types.len()
        invariant
            i <= job_types.len(),
            labels.len() == i,
            forall|k: int| 0 <= k < i ==> (#[trigger] labels[k])@ == job_types[k].label_text(),
        decreases job_types.len() - i,
    {
        labels.push(job_types[i].label().to_owned());
        i += 1;
    }
    assert(labels.deep_view() =~= labels_of(job_types@));
    labels
}

/// Puts the four lines together from the fields and the two lists as they
/// are to be written.
pub fn lines(info: &ScrapedInfo, locations: &str, labels: &str) -> (lines: Vec<String>)
    ensures
        lines.deep_view() == report_lines(info@, locations@, labels@),
{
    let mut lines: Vec<String> = Vec::new();
    lines.push(String::from_str("Title: ").concat(info.title.as_str()));
    lines.push(String::from_str("Company Name: ").concat(info.company.as_str()));
    lines.push(String::from_str("Locations: ").concat(locations));
    lines.push(String::from_str("Employment Types: ").concat(labels));
    assert(lines.deep_view() =~= report_lines(info@, locations@, labels@));
    lines
}

/// The lines to print for a listing: its title, its company, its locations
/// and its employment types.
pub fn report(info: &ScrapedInfo) -> (lines: Vec<String>)
    ensures
        lines.deep_view() == report_of(info@),
{
    let locations = debug_list(&info.locations);
    let labels = debug_list(&labels(&info.job_type));
    self::lines(info, locations.as_str(), labels.as_str())
}

} // verus!
