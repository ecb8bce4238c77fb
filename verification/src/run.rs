//! What one run comes to, once the page was fetched or the fetch has failed:
//! the lines to print, or the failure that ends the run. There is nothing in
//! between: a run that fails prints no line.

use vstd::prelude::*;
use crate::error::Error;
use crate::error::ErrorView;
use crate::error::ParseError;
use crate::error::ParseErrorView;
use crate::model::ScrapedInfo;
use crate::model::ScrapedInfoView;
use crate::report::report;
use crate::report::report_of;
use crate::scrape::scrape_info;
use crate::scrape::scraped_from;
use crate::scrape::scraped_view;

verus! {

/// What `outcome` is in specifications.
pub open spec fn outcome_view(outcome: Result<Vec<String>, Error>) -> Result<
    Seq<Seq<char>>,
    ErrorView,
> {
    match outcome {
        Ok(lines) => Ok(lines.deep_view()),
        Err(error) => Err(error@),
    }
}

/// What `fetched` is in specifications.
pub open spec fn fetched_view(fetched: Result<String, String>) -> Result<Seq<char>, Seq<char>> {
    match fetched {
        Ok(page) => Ok(page@),
        Err(cause) => Err(cause@),
    }
}

/// The lines for the fields that were read, or the parse error as the
/// failure of the run.
pub open spec fn lines_of(scraped: Result<ScrapedInfoView, ParseErrorView>) -> Result<
    Seq<Seq<char>>,
    ErrorView,
> {
    match scraped {
        Ok(info) => Ok(report_of(info)),
        Err(error) => Err(ErrorView::Parse(error)),
    }
}

/// What a run comes to. A fetch that failed is a network error with the
/// cause it gave, whatever that is. A page that was fetched gives its four
/// lines, or the parse error that reading it ends in.
pub open spec fn run_of(fetched: Result<Seq<char>, Seq<char>>) -> Result<
    Seq<Seq<char>>,
    ErrorView,
> {
    match fetched {
        Err(cause) => Err(ErrorView::Network(cause)),
        Ok(page) => lines_of(scraped_from(page)),
    }
}

/// Turns what was read from a page into the lines to print, or into the
/// failure of the run.
pub fn lines_of_scraped(scraped: Result<ScrapedInfo, ParseError>) -> (outcome: Result<
    Vec<String>,
    Error,
>)
    ensures
        outcome_view(outcome) == lines_of(scraped_view(scraped)),
{
    match scraped {
        Ok(info) => Ok(report(&info)),
        Err(error) => Err(Error::Parse(error)),
    }
}

/// Decides what a run prints. `fetched` is the text of the page, or the
/// cause for which the fetch failed.
pub fn lines_of_run(fetched: Result<String, String>) -> (outcome: Result<Vec<String>, Error>)
    ensures
        outcome_view(outcome) == run_of(fetched_view(fetched)),
{
    match fetched {
        Err(cause) => Err(Error::Network(cause)),
        Ok(page) => lines_of_scraped(scrape_info(page.as_str())),
    }
}

/// A fetch that failed prints nothing: the run ends in the network error,
/// with the cause of the failure.
pub proof fn lemma_failed_fetch_prints_nothing(cause: Seq<char>)
    ensures
        run_of(Err(cause)) == Err::<Seq<Seq<char>>, ErrorView>(ErrorView::Network(cause)),
{
}

/// A run prints lines only where the page was fetched and every field was
/// read, and then it prints the four lines of those fields.
pub proof fn lemma_lines_need_every_field(fetched: Result<Seq<char>, Seq<char>>)
    ensures
        run_of(fetched) is Ok <==> fetched is Ok && scraped_from(fetched->Ok_0) is Ok,
        run_of(fetched) matches Ok(lines) ==> lines == report_of(scraped_from(fetched->Ok_0)->Ok_0)
            && lines.len() == 4,
{
}

} // verus!
