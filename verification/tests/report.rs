use job_listing::config::require_api_key;
use job_listing::config::API_KEY_VARIABLE;
use job_listing::error::Error;
use job_listing::error::Field;
use job_listing::error::ParseError;
use job_listing::job_type::JobType;
use job_listing::model::AIListingInfo;
use job_listing::model::Contact;
use job_listing::model::Listing;
use job_listing::model::ManualListingInfo;
use job_listing::model::ScrapedInfo;
use job_listing::report::labels;
use job_listing::report::lines;
use job_listing::report::report;

fn scraped() -> ScrapedInfo {
    ScrapedInfo {
        company: "ACME GmbH".to_string(),
        title: "Rust Developer (m/w/d)".to_string(),
        job_type: vec![JobType::FullTime, JobType::Internship],
        locations: vec!["Wien".to_string(), "Graz".to_string(), "Linz".to_string()],
    }
}

#[test]
fn report_has_the_four_lines() {
    assert_eq!(
        report(&scraped()),
        vec![
            "Title: Rust Developer (m/w/d)".to_string(),
            "Company Name: ACME GmbH".to_string(),
            "Locations: [\"Wien\", \"Graz\", \"Linz\"]".to_string(),
            "Employment Types: [\"Vollzeit\", \"Praktika\"]".to_string(),
        ]
    );
}

#[test]
fn report_escapes_what_debug_escapes() {
    let mut info = scraped();
    info.locations = vec!["Bad \"Ischl\"".to_string()];
    info.job_type = Vec::new();
    let lines = report(&info);
    assert_eq!(lines[2], "Locations: [\"Bad \\\"Ischl\\\"\"]");
    assert_eq!(lines[3], "Employment Types: []");
}

#[test]
fn lines_put_the_given_texts_behind_the_headings() {
    assert_eq!(
        lines(&scraped(), "here", "there"),
        vec![
            "Title: Rust Developer (m/w/d)".to_string(),
            "Company Name: ACME GmbH".to_string(),
            "Locations: here".to_string(),
            "Employment Types: there".to_string(),
        ]
    );
}

#[test]
fn labels_are_listed_in_order() {
    assert_eq!(
        labels(&vec![JobType::Marginal, JobType::Freelance, JobType::Marginal]),
        vec![
            "Geringfügig".to_string(),
            "Freelancer*in, Projektarbeit".to_string(),
            "Geringfügig".to_string(),
        ]
    );
}

#[test]
fn api_key_is_required() {
    assert_eq!(require_api_key(Some("sk-test".to_string())), Ok("sk-test".to_string()));
    assert_eq!(require_api_key(Some(String::new())), Ok(String::new()));
    assert_eq!(require_api_key(None), Err(Error::Config("OPENAI_KEY".to_string())));
    assert_eq!(API_KEY_VARIABLE, "OPENAI_KEY");
}

#[test]
fn each_error_has_its_message() {
    assert_eq!(
        Error::Config("OPENAI_KEY".to_string()).message(),
        "configuration error: OPENAI_KEY"
    );
    assert_eq!(
        Error::Network("connection refused".to_string()).message(),
        "network error: connection refused"
    );
    assert_eq!(
        Error::Inference("quota exceeded".to_string()).message(),
        "inference error: quota exceeded"
    );
    assert_eq!(
        Error::Parse(ParseError::Missing(Field::Title)).message(),
        "parse error: missing job title"
    );
    assert_eq!(
        Error::Parse(ParseError::Missing(Field::Company)).message(),
        "parse error: missing company name"
    );
    assert_eq!(ParseError::Missing(Field::Locations).message(), "missing locations");
    assert_eq!(ParseError::PageTooLarge.message(), "page too large");
    assert_eq!(Error::Parse(ParseError::PageTooLarge).message(), "parse error: page too large");
    assert_eq!(
        ParseError::Missing(Field::EmploymentTypes).message(),
        "missing employment types"
    );
    assert_eq!(
        ParseError::UnknownJobType("Foo".to_string()).message(),
        "unknown employment type: Foo"
    );
    assert_eq!(Field::Title.name(), "job title");
}

#[test]
fn listing_is_built_in_two_steps() {
    let manual = ManualListingInfo::from_scraped(
        scraped(),
        "https://www.karriere.at/jobs/6759197".to_string(),
        "6759197".to_string(),
    );
    assert_eq!(manual.title, "Rust Developer (m/w/d)");
    assert_eq!(manual.company, "ACME GmbH");
    assert_eq!(manual.job_type, vec![JobType::FullTime, JobType::Internship]);
    assert_eq!(manual.locations, vec!["Wien".to_string(), "Graz".to_string(), "Linz".to_string()]);
    assert_eq!(manual.application_link, "https://www.karriere.at/jobs/6759197");
    assert_eq!(manual.karriere_id, "6759197");

    let listing = Listing::from_manual(manual.clone());
    assert_eq!(listing.manual_listing_info, manual);
    assert_eq!(listing.ai_listing_info, AIListingInfo::absent());
    assert_eq!(listing.ai_listing_info.description, None);
    assert_eq!(listing.ai_listing_info.salary_min, None);
    assert_eq!(listing.ai_listing_info.salary_max, None);
    assert_eq!(listing.ai_listing_info.contact, None);
    assert_eq!(listing.ai_listing_info.perks, None);
    assert_eq!(listing.ai_listing_info.requirements, None);
    assert_eq!(listing.ai_listing_info.responsibilities, None);

    let mut ai = AIListingInfo::absent();
    ai.salary_min = Some(3000);
    ai.contact = Some(Contact::absent());
    let full = Listing::new(manual.clone(), ai.clone());
    assert_eq!(full.manual_listing_info, manual);
    assert_eq!(full.ai_listing_info, ai);
    assert_eq!(Contact::absent().email, None);
}
