use job_listing::error::Error;
use job_listing::error::Field;
use job_listing::error::ParseError;
use job_listing::job_type::JobType;
use job_listing::model::ScrapedInfo;
use job_listing::run::lines_of_run;
use job_listing::run::lines_of_scraped;

const PAGE: &str = r#"<html><body>
<h1 class="m-jobHeader__jobTitle">Rust Developer (m/w/d)</h1>
<a class="m-jobHeader__companyLink" href="/f/acme">ACME GmbH</a>
<ul>
  <li class="jobHeader__jobLocations" data-job-locations="Wien, Graz">Wien, Graz</li>
  <li class="m-jobHeader__jobEmploymentTypes">Teilzeit</li>
</ul>
</body></html>"#;

#[test]
fn failed_fetch_is_a_network_error_and_prints_nothing() {
    assert_eq!(
        lines_of_run(Err("connection refused".to_string())),
        Err(Error::Network("connection refused".to_string()))
    );
    assert_eq!(lines_of_run(Err(String::new())), Err(Error::Network(String::new())));
    let cause = "HTTP status server error (500 Internal Server Error)".to_string();
    assert_eq!(
        lines_of_run(Err(cause.clone())).map_err(|error| error.message()),
        Err(format!("network error: {}", cause))
    );
}

#[test]
fn fetched_page_gives_its_four_lines() {
    assert_eq!(
        lines_of_run(Ok(PAGE.to_string())),
        Ok(vec![
            "Title: Rust Developer (m/w/d)".to_string(),
            "Company Name: ACME GmbH".to_string(),
            "Locations: [\"Wien\", \"Graz\"]".to_string(),
            "Employment Types: [\"Teilzeit\"]".to_string(),
        ])
    );
}

#[test]
fn page_that_cannot_be_read_prints_nothing() {
    let page = PAGE.replace("m-jobHeader__companyLink", "other");
    assert_eq!(lines_of_run(Ok(page)), Err(Error::Parse(ParseError::Missing(Field::Company))));
    let page = PAGE.replace("Teilzeit", "Foo");
    assert_eq!(
        lines_of_run(Ok(page)),
        Err(Error::Parse(ParseError::UnknownJobType("Foo".to_string())))
    );
    assert_eq!(
        lines_of_run(Ok(String::new())),
        Err(Error::Parse(ParseError::Missing(Field::Title)))
    );
}

#[test]
fn scraped_fields_become_lines_and_errors_stay_errors() {
    let info = ScrapedInfo {
        company: "ACME".to_string(),
        title: "Developer".to_string(),
        job_type: vec![JobType::Apprenticeship],
        locations: Vec::new(),
    };
    assert_eq!(
        lines_of_scraped(Ok(info)),
        Ok(vec![
            "Title: Developer".to_string(),
            "Company Name: ACME".to_string(),
            "Locations: []".to_string(),
            "Employment Types: [\"Lehre\"]".to_string(),
        ])
    );
    assert_eq!(
        lines_of_scraped(Err(ParseError::PageTooLarge)),
        Err(Error::Parse(ParseError::PageTooLarge))
    );
}
