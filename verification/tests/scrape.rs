use job_listing::error::Field;
use job_listing::error::ParseError;
use job_listing::job_type::JobType;
use job_listing::scrape::assemble;
use job_listing::scrape::page_fits;
use job_listing::scrape::parse_employment_types;
use job_listing::scrape::parse_locations;
use job_listing::scrape::scrape_info;
use job_listing::scrape::MAX_PAGE_BYTES;

const FIXTURE: &str = r#"<!DOCTYPE html>
<html lang="de">
  <head><title>Rust Developer (m/w/d) - ACME GmbH</title></head>
  <body>
    <header class="m-jobHeader">
      <h1 class="m-jobHeader__jobTitle">Rust Developer (m/w/d)</h1>
      <a class="m-jobHeader__companyLink" href="/f/acme">ACME GmbH</a>
      <ul class="m-jobHeader__meta">
        <li class="jobHeader__jobLocations" data-job-locations="Wien,Graz,Linz">Wien, Graz, Linz</li>
        <li class="m-jobHeader__jobEmploymentTypes">Vollzeit,Praktika</li>
      </ul>
    </header>
  </body>
</html>"#;

const FIXTURE_WITHOUT_COMPANY: &str = r#"<!DOCTYPE html>
<html lang="de">
  <body>
    <h1 class="m-jobHeader__jobTitle">Rust Developer (m/w/d)</h1>
    <ul>
      <li class="jobHeader__jobLocations" data-job-locations="Wien,Graz,Linz">Wien, Graz, Linz</li>
      <li class="m-jobHeader__jobEmploymentTypes">Vollzeit,Praktika</li>
    </ul>
  </body>
</html>"#;

fn texts(items: &[&str]) -> Vec<String> {
    items.iter().map(|item| item.to_string()).collect()
}

#[test]
fn fixture_gives_exact_fields() {
    let info = scrape_info(FIXTURE).expect("the fixture has all four values");
    assert_eq!(info.title, "Rust Developer (m/w/d)");
    assert_eq!(info.company, "ACME GmbH");
    assert_eq!(info.locations, texts(&["Wien", "Graz", "Linz"]));
    assert_eq!(info.job_type, vec![JobType::FullTime, JobType::Internship]);
}

#[test]
fn fixture_entries_lose_the_space_around_them() {
    let page = FIXTURE
        .replace("Wien,Graz,Linz\"", " Wien , Graz,\tLinz \"")
        .replace("Vollzeit,Praktika", "\n  Vollzeit, Praktika\n");
    let info = scrape_info(&page).expect("the page has all four values");
    assert_eq!(info.locations, texts(&["Wien", "Graz", "Linz"]));
    assert_eq!(info.job_type, vec![JobType::FullTime, JobType::Internship]);
}

#[test]
fn locations_are_read_from_the_attribute_not_the_text() {
    let page = FIXTURE.replace(">Wien, Graz, Linz<", ">Salzburg<");
    let info = scrape_info(&page).expect("the page has all four values");
    assert_eq!(info.locations, texts(&["Wien", "Graz", "Linz"]));
}

#[test]
fn location_attribute_is_split_in_order() {
    assert_eq!(parse_locations("Wien,Graz,Linz"), texts(&["Wien", "Graz", "Linz"]));
}

#[test]
fn locations_keep_repetitions_and_empty_entries() {
    assert_eq!(parse_locations("Wien,Graz,Wien"), texts(&["Wien", "Graz", "Wien"]));
    assert_eq!(parse_locations("Wien,,Graz,"), texts(&["Wien", "", "Graz", ""]));
    assert_eq!(parse_locations(""), texts(&[""]));
    assert_eq!(parse_locations("Wien"), texts(&["Wien"]));
}

#[test]
fn employment_types_map_to_job_types() {
    assert_eq!(
        parse_employment_types("Vollzeit,Praktika"),
        Ok(vec![JobType::FullTime, JobType::Internship])
    );
}

#[test]
fn unknown_employment_type_is_an_error() {
    assert_eq!(
        parse_employment_types("Foo"),
        Err(ParseError::UnknownJobType("Foo".to_string()))
    );
    assert_eq!(
        parse_employment_types("Vollzeit,Foo,Bar"),
        Err(ParseError::UnknownJobType("Foo".to_string()))
    );
    assert_eq!(
        parse_employment_types("Vollzeit,"),
        Err(ParseError::UnknownJobType(String::new()))
    );
}

#[test]
fn unknown_employment_type_on_the_page_is_an_error() {
    let page = FIXTURE.replace("Vollzeit,Praktika", "Vollzeit,Foo");
    assert_eq!(scrape_info(&page), Err(ParseError::UnknownJobType("Foo".to_string())));
}

#[test]
fn labels_with_a_comma_do_not_survive_the_split() {
    assert_eq!(
        parse_employment_types("Freelancer*in, Projektarbeit"),
        Err(ParseError::UnknownJobType("Freelancer*in".to_string()))
    );
    assert_eq!(
        parse_employment_types("Teilzeit,Diplomarbeit, Dissertation"),
        Err(ParseError::UnknownJobType("Diplomarbeit".to_string()))
    );
}

#[test]
fn missing_company_link_is_an_error() {
    assert_eq!(
        scrape_info(FIXTURE_WITHOUT_COMPANY),
        Err(ParseError::Missing(Field::Company))
    );
}

#[test]
fn each_missing_value_is_reported() {
    let no_title = FIXTURE.replace("m-jobHeader__jobTitle", "other");
    assert_eq!(scrape_info(&no_title), Err(ParseError::Missing(Field::Title)));
    let no_locations = FIXTURE.replace("data-job-locations", "data-other");
    assert_eq!(scrape_info(&no_locations), Err(ParseError::Missing(Field::Locations)));
    let no_location_item = FIXTURE.replace("jobHeader__jobLocations", "other");
    assert_eq!(scrape_info(&no_location_item), Err(ParseError::Missing(Field::Locations)));
    let no_types = FIXTURE.replace("m-jobHeader__jobEmploymentTypes", "other");
    assert_eq!(scrape_info(&no_types), Err(ParseError::Missing(Field::EmploymentTypes)));
    assert_eq!(scrape_info(""), Err(ParseError::Missing(Field::Title)));
}

#[test]
fn element_without_text_is_an_error() {
    let page = FIXTURE.replace(">Rust Developer (m/w/d)</h1>", "></h1>");
    assert_eq!(scrape_info(&page), Err(ParseError::Missing(Field::Title)));
}

#[test]
fn first_match_and_first_text_node_win() {
    let page = FIXTURE
        .replace(
            ">Rust Developer (m/w/d)</h1>",
            "><span>Senior</span> Rust Developer</h1><h1 class=\"m-jobHeader__jobTitle\">Other</h1>",
        );
    let info = scrape_info(&page).expect("the page has all four values");
    assert_eq!(info.title, "Senior");
}

#[test]
fn title_and_company_are_kept_as_written() {
    let page = FIXTURE.replace(">ACME GmbH<", ">  ACME   GmbH <");
    let info = scrape_info(&page).expect("the page has all four values");
    assert_eq!(info.company, "  ACME   GmbH ");
}

#[test]
fn assemble_reports_the_first_missing_value() {
    let some = |text: &str| Some(text.to_string());
    assert_eq!(
        assemble(None, None, None, None),
        Err(ParseError::Missing(Field::Title))
    );
    assert_eq!(
        assemble(some("t"), None, None, some("Foo")),
        Err(ParseError::Missing(Field::Company))
    );
    assert_eq!(
        assemble(some("t"), some("c"), None, None),
        Err(ParseError::Missing(Field::Locations))
    );
    assert_eq!(
        assemble(some("t"), some("c"), some("Wien"), None),
        Err(ParseError::Missing(Field::EmploymentTypes))
    );
    assert_eq!(
        assemble(some("t"), some("c"), some("Wien"), some("Foo")),
        Err(ParseError::UnknownJobType("Foo".to_string()))
    );
}

#[test]
fn assemble_builds_the_fields() {
    let info = assemble(
        Some("Rust Developer".to_string()),
        Some("ACME".to_string()),
        Some("Wien, Graz".to_string()),
        Some("Teilzeit, Lehre,Geringfügig".to_string()),
    )
    .expect("all four values are there");
    assert_eq!(info.title, "Rust Developer");
    assert_eq!(info.company, "ACME");
    assert_eq!(info.locations, texts(&["Wien", "Graz"]));
    assert_eq!(
        info.job_type,
        vec![JobType::PartTime, JobType::Apprenticeship, JobType::Marginal]
    );
}

#[test]
fn page_over_the_limit_is_an_error() {
    let page = String::from_utf8(vec![0u8; MAX_PAGE_BYTES + 1]).expect("NUL bytes are text");
    assert!(!page_fits(&page));
    assert_eq!(scrape_info(&page), Err(ParseError::PageTooLarge));
}

#[test]
fn limit_counts_bytes_not_characters() {
    assert_eq!(MAX_PAGE_BYTES, 268_435_456);
    assert!(page_fits(""));
    assert!(page_fits(FIXTURE));
    let umlauts = "ä".repeat(MAX_PAGE_BYTES / 2);
    assert!(page_fits(&umlauts));
    let one_more = umlauts + "a";
    assert!(!page_fits(&one_more));
}

#[test]
fn nul_bytes_in_a_page_do_no_harm() {
    let page = FIXTURE.replace(">ACME GmbH<", ">ACME\u{0}GmbH<").replace("<header", "<!-- \u{0}\u{0} --><header");
    let info = scrape_info(&page).expect("the page has all four values");
    assert_eq!(info.title, "Rust Developer (m/w/d)");
    assert_eq!(info.locations, texts(&["Wien", "Graz", "Linz"]));
}

#[test]
fn locations_are_one_more_than_the_commas() {
    for value in ["", "Wien", "Wien,Graz", " Wien , Graz ,Linz", ",,", "a,b,,c,"] {
        let page = FIXTURE.replace("Wien,Graz,Linz\"", &format!("{}\"", value));
        let info = scrape_info(&page).expect("the page has all four values");
        let commas = value.chars().filter(|c| *c == ',').count();
        assert_eq!(info.locations.len(), commas + 1, "{:?}", value);
        let expected: Vec<String> = value.split(',').map(|piece| piece.trim().to_string()).collect();
        assert_eq!(info.locations, expected, "{:?}", value);
    }
}

#[test]
fn listed_labels_are_read_back() {
    let job_types = vec![
        JobType::Internship,
        JobType::FullTime,
        JobType::Marginal,
        JobType::PartTime,
        JobType::Apprenticeship,
        JobType::FullTime,
    ];
    let listed: Vec<&str> = job_types.iter().map(|job_type| job_type.label()).collect();
    assert_eq!(parse_employment_types(&listed.join(",")), Ok(job_types.clone()));
    assert_eq!(parse_employment_types(&listed.join(" , ")), Ok(job_types));
    assert_eq!(parse_employment_types("Lehre"), Ok(vec![JobType::Apprenticeship]));
    assert_eq!(parse_employment_types(""), Err(ParseError::UnknownJobType(String::new())));
}
