//! Job listings from karriere.at: the record of a listing, the fields that its
//! page holds, and the listing as a structured document.
//!
//! - `model`: the record, in its two parts.
//! - `job_type`: the employment categories and their labels on the site.
//! - `scrape`: reading title, company, locations and employment types out of
//!   a page.
//! - `text`: trimming and splitting, on which the lists of a page are read.
//! - `codec`, `document`: writing a listing as a document and reading it back.
//! - `chat`: the history of a conversation with a chat-completion service.
//! - `config`, `report`, `error`: the required key, the lines that are
//!   printed, and the failures that end a run.
//! - `run`: what a run prints or fails with, once the fetch has ended.
//!
//! Every executable function states what it returns, and Verus proves that it
//! does. What is taken on trust of the `scraper` crate and of std's `Debug` is
//! named where it is used, in `scrape` and in `report`.

pub mod chat;
pub mod codec;
pub mod config;
pub mod document;
pub mod error;
pub mod job_type;
pub mod model;
pub mod report;
pub mod run;
pub mod scrape;
pub mod text;
