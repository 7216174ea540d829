//! Assembly of the extracted fields into one document.

use crate::error::Error;
use crate::extract::{
    extract, extracted, view_fields, view_option, ExtractedField, ExtractedFieldView,
};
use crate::source::{Field, SourceDescriptor, SourceDescriptorView};
use crate::text::{slug, slug_of};
use vstd::prelude::*;

verus! {

/// An article, ready to be handed on: front matter, summary and body.
#[derive(Clone, Debug, PartialEq, Eq)]
pub struct RenderedDocument {
    pub title: String,
    pub slug: String,
    pub author: Option<String>,
    pub date: Option<String>,
    pub summary: Option<String>,
    pub body: String,
}

/// The mathematical model of a [`RenderedDocument`].
pub struct RenderedDocumentView {
    pub title: Seq<char>,
    pub slug: Seq<char>,
    pub author: Option<Seq<char>>,
    pub date: Option<Seq<char>>,
    pub summary: Option<Seq<char>>,
    pub body: Seq<char>,
}

impl View for RenderedDocument {
    type V = RenderedDocumentView;

    open spec fn view(&self) -> RenderedDocumentView {
        RenderedDocumentView {
            title: self.title@,
            slug: self.slug@,
            author: view_option(self.author),
            date: view_option(self.date),
            summary: view_option(self.summary),
            body: self.body@,
        }
    }
}

/// The line `label` + `value` + `end`, or nothing where there is no value.
pub open spec fn line_of(label: Seq<char>, value: Option<Seq<char>>, end: Seq<char>) -> Seq<
    char,
> {
    match value {
        Some(text) => label + text + end,
        None => Seq::empty(),
    }
}

impl RenderedDocumentView {
    /// The text of the document: the front matter between its two fences,
    /// with the slug as title and a line for the author and for the date where
    /// there is one; the summary as a top-level heading where there is one;
    /// the body.
    pub open spec fn markdown(self) -> Seq<char> {
        "---\ntitle: "@ + self.slug + "\n"@ + line_of("author: "@, self.author, "\n"@) + line_of(
            "date: "@,
            self.date,
            "\n"@,
        ) + "---\n"@ + line_of("\n# "@, self.summary, "\n"@) + self.body
    }
}

/// What assembly has gathered from the fields that it has gone through.
pub struct DraftView {
    pub title: Option<Seq<char>>,
    pub author: Option<Seq<char>>,
    pub day_month: Seq<char>,
    pub year: Seq<char>,
    pub date: Option<Seq<char>>,
    pub summary: Option<Seq<char>>,
    pub body: Option<Seq<char>>,
}

/// The draft before any field.
pub open spec fn empty_draft() -> DraftView {
    DraftView {
        title: None,
        author: None,
        day_month: Seq::empty(),
        year: Seq::empty(),
        date: None,
        summary: None,
        body: None,
    }
}

/// The draft after a field with the text `text`. The date is composed when the
/// time is met: the day and month and the year met so far, a space, the time.
pub open spec fn draft_with(draft: DraftView, field: Field, text: Seq<char>) -> DraftView {
    match field {
        Field::Title => DraftView { title: Some(text), ..draft },
        Field::Author => DraftView { author: Some(text), ..draft },
        Field::DayMonth => DraftView { day_month: text, ..draft },
        Field::Year => DraftView { year: text, ..draft },
        Field::Time => DraftView {
            date: Some(draft.day_month + draft.year + " "@ + text),
            ..draft
        },
        Field::Perex => DraftView { summary: Some(text), ..draft },
        Field::Body => DraftView { body: Some(text), ..draft },
    }
}

/// The draft after `fields`, gone through in their order. A field without a
/// text leaves the draft as it is.
pub open spec fn drafted(fields: Seq<ExtractedFieldView>) -> DraftView
    decreases fields.len(),
{
    if fields.len() == 0 {
        empty_draft()
    } else {
        let draft = drafted(fields.drop_last());
        match fields.last().text {
            Some(text) => draft_with(draft, fields.last().field, text),
            None => draft,
        }
    }
}

/// The document assembled from `fields`; an error where they hold no title or no body.
pub open spec fn assembled(fields: Seq<ExtractedFieldView>) -> Result<
    RenderedDocumentView,
    Error,
> {
    let draft = drafted(fields);
    match (draft.title, draft.body) {
        (None, _) => Err(Error::MissingMandatoryField(Field::Title)),
        (Some(_), None) => Err(Error::MissingMandatoryField(Field::Body)),
        (Some(title), Some(body)) => Ok(
            RenderedDocumentView {
                title,
                slug: slug_of(title),
                author: draft.author,
                date: draft.date,
                summary: draft.summary,
                body,
            },
        ),
    }
}

/// The document of the page `html` of `source`: its fields extracted, then assembled.
pub open spec fn converted(source: SourceDescriptorView, html: Seq<char>) -> Result<
    RenderedDocumentView,
    Error,
> {
    match extracted(source, html) {
        Ok(fields) => assembled(fields),
        Err(e) => Err(e),
    }
}

/// The model of the outcome of a conversion.
pub open spec fn view_outcome(result: Result<RenderedDocument, Error>) -> Result<
    RenderedDocumentView,
    Error,
> {
    match result {
        Ok(document) => Ok(document@),
        Err(e) => Err(e),
    }
}

/// The text and the slug of a document that may have failed to come about.
pub open spec fn text_and_slug(outcome: Result<RenderedDocumentView, Error>) -> Result<
    (Seq<char>, Seq<char>),
    Error,
> {
    match outcome {
        Ok(document) => Ok((document.markdown(), document.slug)),
        Err(e) => Err(e),
    }
}

/// The model of a text and a slug that may have failed to come about.
pub open spec fn view_text_and_slug(result: Result<(String, String), Error>) -> Result<
    (Seq<char>, Seq<char>),
    Error,
> {
    match result {
        Ok(pair) => Ok((pair.0@, pair.1@)),
        Err(e) => Err(e),
    }
}

/// Whether `outcome` is what converting the page `html` of `source` gives.
pub open spec fn is_conversion(
    source: SourceDescriptorView,
    html: Seq<char>,
    outcome: Result<RenderedDocumentView, Error>,
) -> bool {
    outcome == converted(source, html)
}

/// Converting the same page again gives the same document, or the same error.
pub proof fn law_conversion_repeats(
    source: SourceDescriptorView,
    html: Seq<char>,
    first: Result<RenderedDocumentView, Error>,
    second: Result<RenderedDocumentView, Error>,
)
    requires
        is_conversion(source, html, first),
        is_conversion(source, html, second),
    ensures
        first == second,
        first matches Ok(document) ==> second matches Ok(again) && document.markdown()
            == again.markdown(),
{
}

impl RenderedDocument {
    /// Writes the document out.
    pub fn to_markdown(&self) -> (text: String)
        ensures
            text@ == self@.markdown(),
    {
        let mut text = String::from_str("---\ntitle: ");
        text.append(self.slug.as_str());
        text.append("\n");
        match &self.author {
            Some(author) => {
                text.append("author: ");
                text.append(author.as_str());
                text.append("\n");
            },
            None => {},
        }
        match &self.date {
            Some(date) => {
                text.append("date: ");
                text.append(date.as_str());
                text.append("\n");
            },
            None => {},
        }
        text.append("---\n");
        match &self.summary {
            Some(summary) => {
                text.append("\n# ");
                text.append(summary.as_str());
                text.append("\n");
            },
            None => {},
        }
        text.append(self.body.as_str());
        text
    }
}

/// Assembles the document from the extracted fields, gone through in their order.
pub fn assemble(fields: &Vec<ExtractedField>) -> (result: Result<RenderedDocument, Error>)
    ensures
        view_outcome(result) == assembled(view_fields(fields@)),
{
    let ghost views = view_fields(fields@);
    let mut title: Option<String> = None;
    let mut author: Option<String> = None;
    let mut day_month = String::new();
    let mut year = String::new();
    let mut date: Option<String> = None;
    let mut summary: Option<String> = None;
    let mut body: Option<String> = None;
    let mut i: usize = 0;
    while i < fields.len()
        invariant
            i <= fields.len(),
            views == view_fields(fields@),
            drafted(views.take(i as int)) == (DraftView {
                title: view_option(title),
                author: view_option(author),
                day_month: day_month@,
                year: year@,
                date: view_option(date),
                summary: view_option(summary),
                body: view_option(body),
            }),
        decreases fields.len() - i,
    {
        let ghost upto = views.take(i + 1);
        assert(upto.drop_last() =~= views.take(i as int));
        match &fields[i].text {
            Some(text) => {
                match fields[i].field {
                    Field::Title => {
                        title = Some(text.clone());
                    },
                    Field::Author => {
                        author = Some(text.clone());
                    },
                    Field::DayMonth => {
                        day_month = text.clone();
                    },
                    Field::Year => {
                        year = text.clone();
                    },
                    Field::Time => {
                        let mut composed = day_month.clone();
                        composed.append(year.as_str());
                        composed.append(" ");
                        composed.append(text.as_str());
                        date = Some(composed);
                    },
                    Field::Perex => {
                        summary = Some(text.clone());
                    },
                    Field::Body => {
                        body = Some(text.clone());
                    },
                }
            },
            None => {},
        }
        i += 1;
    }
    assert(views.take(fields.len() as int) =~= views);
    match title {
        None => Err(Error::MissingMandatoryField(Field::Title)),
        Some(title) => match body {
            None => Err(Error::MissingMandatoryField(Field::Body)),
            Some(body) => {
                let slug = slug(title.as_str());
                Ok(RenderedDocument { title, slug, author, date, summary, body })
            },
        },
    }
}

/// Converts the page `html` of `source` into the text of the article and its slug.
pub fn convert_to_text(source: &SourceDescriptor, html: &str) -> (result: Result<
    (String, String),
    Error,
>)
    ensures
        view_text_and_slug(result) == text_and_slug(converted(source@, html@)),
{
    match convert(source, html) {
        Ok(document) => Ok((document.to_markdown(), document.slug)),
        Err(e) => Err(e),
    }
}

/// Converts the page `html` of `source` into a document: extracts its fields
/// and assembles them.
pub fn convert(source: &SourceDescriptor, html: &str) -> (result: Result<RenderedDocument, Error>)
    ensures
        is_conversion(source@, html@, view_outcome(result)),
{
    match extract(source, html) {
        Ok(fields) => assemble(&fields),
        Err(e) => Err(e),
    }
}

} // verus!
