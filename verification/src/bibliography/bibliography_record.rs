//! A record of a bibliography.

use vstd::prelude::*;

verus! {

/// A cited work.
#[derive(Debug)]
pub struct BibliographyRecord {
    pub title: String,
    pub authors: Option<Vec<String>>,
    pub year: Option<u32>,
    pub url: Option<String>,
    pub description: Option<String>,
}

impl BibliographyRecord {
    pub fn new(
        title: String,
        authors: Option<Vec<String>>,
        year: Option<u32>,
        url: Option<String>,
        description: Option<String>,
    ) -> (r: Self)
        ensures
            r.title == title,
            r.authors == authors,
            r.year == year,
            r.url == url,
            r.description == description,
    {
        Self { title, authors, year, url, description }
    }
}

} // verus!
