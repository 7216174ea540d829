//! Settings of the Discord channel that articles are announced on, and the
//! title line of such an announcement.

use crate::error::{view_text, Error};
use crate::source::Field;
use crate::page::{first_match, selected};
use crate::text::{trim, trimmed};
use vstd::prelude::*;

verus! {

/// Credentials of a Discord bot and the channel it posts to.
#[derive(Clone, Debug, PartialEq, Eq)]
pub struct Discord {
    pub token: String,
    pub channel_id: String,
}

/// The title of the article on the page `content`: the trimmed inner text of
/// the first title element, if the page has one.
pub open spec fn title_of(content: Seq<char>) -> Option<Seq<char>> {
    match selected(content, "h1[data-don=\"article_title\"]"@) {
        Some(node) => Some(trimmed(node.text())),
        None => None,
    }
}

/// The title of the article on the page `content`; an error where the page has none.
pub open spec fn title_or_error(content: Seq<char>) -> Result<Seq<char>, Error> {
    match title_of(content) {
        Some(title) => Ok(title),
        None => Err(Error::MissingMandatoryField(Field::Title)),
    }
}

/// Reads the title of the article from the page `content`.
pub fn html_to_markdown(content: &str) -> (result: Result<String, Error>)
    ensures
        view_text(result) == title_or_error(content@),
{
    match first_match(content, "h1[data-don=\"article_title\"]") {
        Some(node) => Ok(String::from_str(trim(node.text().as_str()))),
        None => Err(Error::MissingMandatoryField(Field::Title)),
    }
}

} // verus!
