//! Extraction of the fields of an article from a page.

use crate::dom::{Element, ElementView};
use crate::error::Error;
use crate::page::{first_match, selected, view_found};
use crate::render::{render, rendered, RenderRules, RenderRulesView};
use crate::source::{Field, SourceDescriptor, SourceDescriptorView};
use crate::text::{trim, trimmed};
use vstd::prelude::*;

verus! {

/// What extraction found for one field: the element that the selector
/// matched, and the text that was read from it.
#[derive(Debug, PartialEq, Eq)]
pub struct ExtractedField {
    pub field: Field,
    pub node: Option<Element>,
    pub text: Option<String>,
}

/// The mathematical model of an [`ExtractedField`].
pub struct ExtractedFieldView {
    pub field: Field,
    pub node: Option<ElementView>,
    pub text: Option<Seq<char>>,
}

/// The model of a string that may be absent.
pub open spec fn view_option(text: Option<String>) -> Option<Seq<char>> {
    match text {
        Some(t) => Some(t@),
        None => None,
    }
}

impl View for ExtractedField {
    type V = ExtractedFieldView;

    open spec fn view(&self) -> ExtractedFieldView {
        ExtractedFieldView {
            field: self.field,
            node: view_found(self.node),
            text: view_option(self.text),
        }
    }
}

/// The models of a sequence of extracted fields, in the same order.
pub open spec fn view_fields(fields: Seq<ExtractedField>) -> Seq<ExtractedFieldView> {
    fields.map_values(|f: ExtractedField| f@)
}

/// The text of `field`, read from the element `node` that its selector matched.
/// The body is rendered. The summary is the last text node below the element,
/// trimmed: the element holds a label before the summary. An element without
/// any text node gives no summary. Every other field is the inner text of the
/// element, trimmed.
pub open spec fn field_text(rules: RenderRulesView, field: Field, node: ElementView) -> Option<
    Seq<char>,
> {
    match field {
        Field::Body => Some(rendered(rules, node)),
        Field::Perex => match node.last_text() {
            Some(text) => Some(trimmed(text)),
            None => None,
        },
        _ => Some(trimmed(node.text())),
    }
}

/// What extraction records for `field` when its selector found `found`.
pub open spec fn extracted_field(
    rules: RenderRulesView,
    field: Field,
    found: Option<ElementView>,
) -> ExtractedFieldView {
    ExtractedFieldView {
        field,
        node: found,
        text: match found {
            Some(node) => field_text(rules, field, node),
            None => None,
        },
    }
}

/// Whether the selector with index `i` is that of a mandatory field and matches nothing in `html`.
pub open spec fn is_missing(source: SourceDescriptorView, html: Seq<char>, i: int) -> bool {
    source.selectors[i].field.is_mandatory() && selected(html, source.selectors[i].selector)
        is None
}

/// Whether `k` is the index of the first selector of a mandatory field that matches nothing.
pub open spec fn is_first_missing(source: SourceDescriptorView, html: Seq<char>, k: int) -> bool {
    &&& 0 <= k < source.selectors.len()
    &&& is_missing(source, html, k)
    &&& forall|j: int| 0 <= j < k ==> !is_missing(source, html, j)
}

/// The outcome of extraction. Where a mandatory field is missing, the first
/// such field in the order of the selectors is reported. Else there is one
/// extracted field for each selector, in their order.
pub open spec fn extracted(source: SourceDescriptorView, html: Seq<char>) -> Result<
    Seq<ExtractedFieldView>,
    Error,
> {
    if exists|k: int| is_first_missing(source, html, k) {
        let first = choose|k: int| is_first_missing(source, html, k);
        Err(Error::MissingMandatoryField(source.selectors[first].field))
    } else {
        Ok(
            Seq::new(
                source.selectors.len(),
                |i: int|
                    extracted_field(
                        source.rules,
                        source.selectors[i].field,
                        selected(html, source.selectors[i].selector),
                    ),
            ),
        )
    }
}

/// The model of the outcome of extraction.
pub open spec fn view_extraction(result: Result<Vec<ExtractedField>, Error>) -> Result<
    Seq<ExtractedFieldView>,
    Error,
> {
    match result {
        Ok(fields) => Ok(view_fields(fields@)),
        Err(e) => Err(e),
    }
}

/// Reads the text of `field` from what its selector found.
pub fn extract_field(rules: &RenderRules, field: Field, found: Option<Element>) -> (extracted:
    ExtractedField)
    ensures
        extracted@ == extracted_field(rules@, field, view_found(found)),
{
    let text = match &found {
        Some(node) => match field {
            Field::Body => Some(render(node, rules)),
            Field::Perex => match node.last_text() {
                Some(text) => Some(String::from_str(trim(text.as_str()))),
                None => None,
            },
            _ => Some(String::from_str(trim(node.text().as_str()))),
        },
        None => None,
    };
    ExtractedField { field, node: found, text }
}

/// Extracts the fields of an article from the page `html`, selector by
/// selector in their order.
pub fn extract(source: &SourceDescriptor, html: &str) -> (result: Result<
    Vec<ExtractedField>,
    Error,
>)
    ensures
        view_extraction(result) == extracted(source@, html@),
{
    let mut fields: Vec<ExtractedField> = Vec::new();
    let mut i: usize = 0;
    while i < source.selectors.len()
        invariant
            i <= source.selectors.len(),
            fields@.len() == i,
            forall|j: int| 0 <= j < i ==> !is_missing(source@, html@, j),
            forall|j: int|
                0 <= j < i ==> (#[trigger] fields@[j])@ == extracted_field(
                    source@.rules,
                    source@.selectors[j].field,
                    selected(html@, source@.selectors[j].selector),
                ),
        decreases source.selectors.len() - i,
    {
        let field = source.selectors[i].field;
        let found = first_match(html, source.selectors[i].selector.as_str());
        if found.is_none() && field.mandatory() {
            assert(is_first_missing(source@, html@, i as int));
            return Err(Error::MissingMandatoryField(field));
        }
        let extracted = extract_field(&source.rules, field, found);
        fields.push(extracted);
        i += 1;
    }
    assert(view_fields(fields@) =~= extracted(source@, html@)->Ok_0);
    Ok(fields)
}

} // verus!
