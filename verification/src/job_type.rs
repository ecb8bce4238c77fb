//! Employment categories and the labels under which the listing site writes
//! them.

use vstd::prelude::*;
use crate::error::ParseError;
use crate::error::ParseErrorView;
use crate::text::has_no_outer_space;
use crate::text::same_text;
use crate::text::trimmed;

verus! {

/// An employment category. The set is closed: a label that names none of
/// these is an error, never a value that is quietly left out.
#[derive(Clone, Copy, Debug, PartialEq, Eq, Hash, Structural)]
pub enum JobType {
    FullTime,
    PartTime,
    Marginal,
    Internship,
    Freelance,
    Apprenticeship,
    DiplomaThesis,
}

impl View for JobType {
    type V = JobType;

    open spec fn view(&self) -> JobType {
        *self
    }
}

impl DeepView for JobType {
    type V = JobType;

    open spec fn deep_view(&self) -> JobType {
        *self
    }
}

impl JobType {
    /// The label of this category on the listing site.
    pub open spec fn label_text(self) -> Seq<char> {
        match self {
            JobType::FullTime => "Vollzeit"@,
            JobType::PartTime => "Teilzeit"@,
            JobType::Marginal => "Geringfügig"@,
            JobType::Internship => "Praktika"@,
            JobType::Freelance => "Freelancer*in, Projektarbeit"@,
            JobType::Apprenticeship => "Lehre"@,
            JobType::DiplomaThesis => "Diplomarbeit, Dissertation"@,
        }
    }

    /// The category that `label` names, if it names one.
    pub open spec fn of_label(label: Seq<char>) -> Option<JobType> {
        if label == "Vollzeit"@ {
            Some(JobType::FullTime)
        } else if label == "Teilzeit"@ {
            Some(JobType::PartTime)
        } else if label == "Geringfügig"@ {
            Some(JobType::Marginal)
        } else if label == "Praktika"@ {
            Some(JobType::Internship)
        } else if label == "Freelancer*in, Projektarbeit"@ {
            Some(JobType::Freelance)
        } else if label == "Lehre"@ {
            Some(JobType::Apprenticeship)
        } else if label == "Diplomarbeit, Dissertation"@ {
            Some(JobType::DiplomaThesis)
        } else {
            None
        }
    }

    /// Returns the label of this category on the listing site.
    pub fn label(&self) -> (label: &'static str)
        ensures
            label@ == self.label_text(),
    {
        match self {
            JobType::FullTime => "Vollzeit",
            JobType::PartTime => "Teilzeit",
            JobType::Marginal => "Geringfügig",
            JobType::Internship => "Praktika",
            JobType::Freelance => "Freelancer*in, Projektarbeit",
            JobType::Apprenticeship => "Lehre",
            JobType::DiplomaThesis => "Diplomarbeit, Dissertation",
        }
    }

    /// Returns the category that `label` names, or `None` where it names
    /// none. The label has to match exactly.
    pub fn from_label(label: &str) -> (found: Option<JobType>)
        ensures
            found == JobType::of_label(label@),
    {
        if same_text(label, "Vollzeit") {
            Some(JobType::FullTime)
        } else if same_text(label, "Teilzeit") {
            Some(JobType::PartTime)
        } else if same_text(label, "Geringfügig") {
            Some(JobType::Marginal)
        } else if same_text(label, "Praktika") {
            Some(JobType::Internship)
        } else if same_text(label, "Freelancer*in, Projektarbeit") {
            Some(JobType::Freelance)
        } else if same_text(label, "Lehre") {
            Some(JobType::Apprenticeship)
        } else if same_text(label, "Diplomarbeit, Dissertation") {
            Some(JobType::DiplomaThesis)
        } else {
            None
        }
    }
}

/// The labels of `job_types`, in order.
pub open spec fn labels_of(job_types: Seq<JobType>) -> Seq<Seq<char>> {
    job_types.map_values(|job_type: JobType| job_type.label_text())
}

/// Whether the label of `job_type` holds a comma.
pub open spec fn has_comma_in_label(job_type: JobType) -> bool {
    job_type == JobType::Freelance || job_type == JobType::DiplomaThesis
}

/// The first of `labels` that names no category, if there is one.
pub open spec fn first_unknown_label(labels: Seq<Seq<char>>) -> Option<Seq<char>>
    decreases labels.len(),
{
    if labels.len() == 0 {
        None
    } else if JobType::of_label(labels.first()) is None {
        Some(labels.first())
    } else {
        first_unknown_label(labels.drop_first())
    }
}

/// The categories that `labels` name, in the order of the labels and with
/// repetitions kept; the first label that names none is the error.
pub open spec fn job_types_of(labels: Seq<Seq<char>>) -> Result<Seq<JobType>, ParseErrorView> {
    match first_unknown_label(labels) {
        Some(label) => Err(ParseErrorView::UnknownJobType(label)),
        None => Ok(labels.map_values(|label: Seq<char>| JobType::of_label(label)->0)),
    }
}

/// What `parsed` is in specifications.
pub open spec fn job_types_view(parsed: Result<Vec<JobType>, ParseError>) -> Result<
    Seq<JobType>,
    ParseErrorView,
> {
    match parsed {
        Ok(types) => Ok(types@),
        Err(error) => Err(error@),
    }
}

/// Maps each label to its category. Fails on the first label that is not in
/// the table, and names it.
pub fn job_types_from_labels(labels: &Vec<String>) -> (parsed: Result<Vec<JobType>, ParseError>)
    ensures
        job_types_view(parsed) == job_types_of(labels.deep_view()),
{
    let ghost all = labels.deep_view();
    let mut types: Vec<JobType> = Vec::new();
    let mut i: usize = 0;
    assert(all.skip(0) =~= all);
    while i < labels.len()
        invariant
            i <= labels.len(),
            all == labels.deep_view(),
            types.len() == i,
            forall|k: int| 0 <= k < i ==> JobType::of_label(#[trigger] all[k]) == Some(types[k]),
            first_unknown_label(all) == first_unknown_label(all.skip(i as int)),
        decreases labels.len() - i,
    {
        assert(all[i as int] == labels[i as int]@);
        assert(all.skip(i as int).drop_first() =~= all.skip(i + 1));
        match JobType::from_label(labels[i].as_str()) {
            Some(job_type) => {
                types.push(job_type);
            },
            None => {
                return Err(ParseError::UnknownJobType(labels[i].clone()));
            },
        }
        i += 1;
    }
    assert(types@ =~= all.map_values(|label: Seq<char>| JobType::of_label(label)->0));
    Ok(types)
}

/// Where the first label that names no category stands among `labels`, or
/// their number where each names one.
pub proof fn lemma_first_unknown_label(labels: Seq<Seq<char>>) -> (at: int)
    ensures
        0 <= at <= labels.len(),
        forall|j: int| 0 <= j < at ==> JobType::of_label(#[trigger] labels[j]) is Some,
        at < labels.len() ==> JobType::of_label(labels[at]) is None && first_unknown_label(labels)
            == Some(labels[at]),
        at == labels.len() ==> first_unknown_label(labels) is None,
    decreases labels.len(),
{
    if labels.len() == 0 || JobType::of_label(labels.first()) is None {
        0
    } else {
        let rest = labels.drop_first();
        let inner = lemma_first_unknown_label(rest);
        assert forall|j: int| 0 <= j < inner + 1 implies JobType::of_label(
            #[trigger] labels[j],
        ) is Some by {
            if j > 0 {
                assert(labels[j] == rest[j - 1]);
            }
        }
        if inner < rest.len() {
            assert(labels[inner + 1] == rest[inner]);
        }
        inner + 1
    }
}

/// Labels are mapped one for one and in order, and none is left out: the
/// result has a category for every label, or is the error for the first label
/// that has none.
pub proof fn lemma_job_types_of(labels: Seq<Seq<char>>)
    ensures
        match job_types_of(labels) {
            Ok(types) => {
                &&& types.len() == labels.len()
                &&& forall|k: int|
                    0 <= k < labels.len() ==> JobType::of_label(#[trigger] labels[k]) == Some(
                        types[k],
                    )
            },
            Err(error) => exists|k: int|
                {
                    &&& 0 <= k < labels.len()
                    &&& JobType::of_label(#[trigger] labels[k]) is None
                    &&& error == ParseErrorView::UnknownJobType(labels[k])
                    &&& forall|j: int| 0 <= j < k ==> JobType::of_label(#[trigger] labels[j]) is Some
                },
        },
{
    let at = lemma_first_unknown_label(labels);
    if at < labels.len() {
        assert(JobType::of_label(labels[at]) is None);
    }
}

/// Every category is found again under its own label.
pub proof fn lemma_label_names_its_type(job_type: JobType)
    ensures
        JobType::of_label(job_type.label_text()) == Some(job_type),
{
    reveal_labels();
}

/// A label names a category only if it is that category's label: the table
/// reads the same in both directions.
pub proof fn lemma_of_label_is_exact(label: Seq<char>, job_type: JobType)
    ensures
        JobType::of_label(label) == Some(job_type) <==> label == job_type.label_text(),
{
    reveal_labels();
}

/// No label is empty, and none starts or ends with white space: trimming a
/// label leaves it as it is.
pub proof fn lemma_labels_are_trimmed(job_type: JobType)
    ensures
        job_type.label_text().len() > 0,
        has_no_outer_space(job_type.label_text()),
        trimmed(job_type.label_text()) == job_type.label_text(),
{
    reveal_labels();
}

/// Five of the seven labels hold no comma.
pub proof fn lemma_labels_without_comma(job_type: JobType)
    requires
        !has_comma_in_label(job_type),
    ensures
        forall|j: int| 0 <= j < job_type.label_text().len() ==> job_type.label_text()[j] != ',',
{
    reveal_labels();
}

/// What the seven labels are, character by character.
proof fn reveal_labels()
    ensures
        "Vollzeit"@ == seq!['V', 'o', 'l', 'l', 'z', 'e', 'i', 't'],
        "Teilzeit"@ == seq!['T', 'e', 'i', 'l', 'z', 'e', 'i', 't'],
        "Geringfügig"@ == seq!['G', 'e', 'r', 'i', 'n', 'g', 'f', 'ü', 'g', 'i', 'g'],
        "Praktika"@ == seq!['P', 'r', 'a', 'k', 't', 'i', 'k', 'a'],
        "Freelancer*in, Projektarbeit"@.len() == 28,
        "Freelancer*in, Projektarbeit"@[0] == 'F',
        "Freelancer*in, Projektarbeit"@[27] == 't',
        "Lehre"@ == seq!['L', 'e', 'h', 'r', 'e'],
        "Diplomarbeit, Dissertation"@.len() == 26,
        "Diplomarbeit, Dissertation"@[0] == 'D',
        "Diplomarbeit, Dissertation"@[25] == 'n',
{
    reveal_strlit("Vollzeit");
    reveal_strlit("Teilzeit");
    reveal_strlit("Geringfügig");
    reveal_strlit("Praktika");
    reveal_strlit("Freelancer*in, Projektarbeit");
    reveal_strlit("Lehre");
    reveal_strlit("Diplomarbeit, Dissertation");
    assert("Vollzeit"@ =~= seq!['V', 'o', 'l', 'l', 'z', 'e', 'i', 't']);
    assert("Teilzeit"@ =~= seq!['T', 'e', 'i', 'l', 'z', 'e', 'i', 't']);
    assert("Geringfügig"@ =~= seq!['G', 'e', 'r', 'i', 'n', 'g', 'f', 'ü', 'g', 'i', 'g']);
    assert("Praktika"@ =~= seq!['P', 'r', 'a', 'k', 't', 'i', 'k', 'a']);
    assert("Lehre"@ =~= seq!['L', 'e', 'h', 'r', 'e']);
}

} // verus!
