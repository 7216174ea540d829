//! Fetches one article from a site that wants a login, and renders it as a
//! document with front matter: the decisions of the login and the fetch, the
//! extraction of the article's parts from the page, the rendering of its body
//! and the assembly of the document.

use vstd::prelude::*;

pub mod discord;
pub mod document;
pub mod dom;
pub mod error;
pub mod extract;
pub mod medium;
pub mod page;
pub mod render;
pub mod source;
pub mod text;
pub mod trend;
pub mod walk;

verus! {

/// The configured sources, each present only where the configuration names it.
#[derive(Clone, Debug, PartialEq, Eq)]
pub struct MediaConfig {
    pub trend: Option<trend::Trend>,
}

impl Default for MediaConfig {
    /// The configuration that names no source.
    fn default() -> (config: MediaConfig)
        ensures
            config.trend is None,
    {
        MediaConfig { trend: None }
    }
}

/// The name of the file that holds the text of the document called `name`.
pub fn markdown_file_name(name: &str) -> (file: String)
    ensures
        file@ == name@ + ".md"@,
{
    let mut file = String::from_str(name);
    file.append(".md");
    file
}

/// The name of the file that the document called `name` is converted into.
pub fn pdf_file_name(name: &str) -> (file: String)
    ensures
        file@ == name@ + ".pdf"@,
{
    let mut file = String::from_str(name);
    file.append(".pdf");
    file
}

} // verus!
