//! Writing a listing as a structured document and reading it back.
//!
//! A record of the data model becomes a record of the document, one entry for
//! each field under the field's name and in the order of the fields. A text
//! becomes a text, a number a number, a list a list, a job type the text of
//! its label, and a value that is absent becomes `Null`. Reading takes the one
//! entry that a field has, fails where a field has several, passes over
//! entries it does not know, and reads a missing entry like `Null`: as an
//! absent value where the field may be absent, as an error where it may not.

pub mod decode;
pub mod encode;
pub mod keys;
pub mod laws;
