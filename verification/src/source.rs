//! The description of a source: where its articles live, where each part of an
//! article stands in a page, how the body is rendered, and how to log in.

use crate::dom::view_strings;
use crate::render::{RenderRules, RenderRulesView};
use crate::text::same_text;
use vstd::prelude::*;

verus! {

/// The parts of an article that a page is searched for.
#[derive(Clone, Copy, Debug, PartialEq, Eq, Structural)]
pub enum Field {
    Title,
    Author,
    DayMonth,
    Year,
    Time,
    Perex,
    Body,
}

impl Field {
    /// A page without a title or without a body is no article.
    pub open spec fn is_mandatory(self) -> bool {
        self == Field::Title || self == Field::Body
    }

    /// The name of the field.
    pub open spec fn name_text(self) -> Seq<char> {
        match self {
            Field::Title => "title"@,
            Field::Author => "author"@,
            Field::DayMonth => "day_month"@,
            Field::Year => "year"@,
            Field::Time => "time"@,
            Field::Perex => "perex"@,
            Field::Body => "body"@,
        }
    }

    /// Tells whether extraction fails where the field is absent.
    pub fn mandatory(&self) -> (mandatory: bool)
        ensures
            mandatory == self.is_mandatory(),
    {
        match self {
            Field::Title => true,
            Field::Body => true,
            _ => false,
        }
    }

    /// The name of the field.
    pub fn name(&self) -> (name: &'static str)
        ensures
            name@ == self.name_text(),
    {
        match self {
            Field::Title => "title",
            Field::Author => "author",
            Field::DayMonth => "day_month",
            Field::Year => "year",
            Field::Time => "time",
            Field::Perex => "perex",
            Field::Body => "body",
        }
    }
}

/// Where a field stands in a page: a CSS selector, of which the first match counts.
#[derive(Clone, Debug, PartialEq, Eq)]
pub struct FieldSelector {
    pub field: Field,
    pub selector: String,
}

/// The mathematical model of a [`FieldSelector`].
pub struct FieldSelectorView {
    pub field: Field,
    pub selector: Seq<char>,
}

impl View for FieldSelector {
    type V = FieldSelectorView;

    open spec fn view(&self) -> FieldSelectorView {
        FieldSelectorView { field: self.field, selector: self.selector@ }
    }
}

/// How to log in: the address of the login page, which is also where the form
/// is sent, the selector of the form field that carries the token, and the
/// attribute that holds it.
#[derive(Clone, Debug, PartialEq, Eq)]
pub struct LoginDescriptor {
    pub url: String,
    pub token_selector: String,
    pub token_attr: String,
}

/// The mathematical model of a [`LoginDescriptor`].
pub struct LoginDescriptorView {
    pub url: Seq<char>,
    pub token_selector: Seq<char>,
    pub token_attr: Seq<char>,
}

impl View for LoginDescriptor {
    type V = LoginDescriptorView;

    open spec fn view(&self) -> LoginDescriptorView {
        LoginDescriptorView {
            url: self.url@,
            token_selector: self.token_selector@,
            token_attr: self.token_attr@,
        }
    }
}

/// The description of a source. The selectors are tried in the order in which
/// they stand here.
#[derive(Clone, Debug, PartialEq, Eq)]
pub struct SourceDescriptor {
    pub name: String,
    pub allowed_domains: Vec<String>,
    pub selectors: Vec<FieldSelector>,
    pub rules: RenderRules,
    pub login: LoginDescriptor,
}

/// The mathematical model of a [`SourceDescriptor`].
pub struct SourceDescriptorView {
    pub name: Seq<char>,
    pub allowed_domains: Seq<Seq<char>>,
    pub selectors: Seq<FieldSelectorView>,
    pub rules: RenderRulesView,
    pub login: LoginDescriptorView,
}

impl View for SourceDescriptor {
    type V = SourceDescriptorView;

    open spec fn view(&self) -> SourceDescriptorView {
        SourceDescriptorView {
            name: self.name@,
            allowed_domains: view_strings(self.allowed_domains@),
            selectors: self.selectors@.map_values(|s: FieldSelector| s@),
            rules: self.rules@,
            login: self.login@,
        }
    }
}

/// The domain of the host that the address `url` names; `None` where `url`
/// is no address or its host is no domain name.
pub uninterp spec fn domain_of(url: Seq<char>) -> Option<Seq<char>>;

impl SourceDescriptorView {
    /// Whether `domain` is one of the source's domains. Only an exact match
    /// counts: a domain and the same with `www.` before it are two domains.
    pub open spec fn allows(self, domain: Seq<char>) -> bool {
        self.allowed_domains.contains(domain)
    }

    /// Whether the address `url` is on one of the source's domains.
    pub open spec fn serves(self, url: Seq<char>) -> bool {
        domain_of(url) matches Some(domain) && self.allows(domain)
    }
}

/// Parses `url` with `reqwest::Url::parse` and reads `Url::domain` of it.
/// The contract only gives that result its name: it is a function of the
/// string alone.
#[verifier::external_body]
pub(crate) fn url_domain(url: &str) -> (domain: Option<String>)
    ensures
        domain is Some <==> domain_of(url@) is Some,
        domain matches Some(d) ==> domain_of(url@) == Some(d@),
{
    reqwest::Url::parse(url).ok()?.domain().map(|d| d.to_string())
}

impl SourceDescriptor {
    /// Tells whether `domain` is one of the source's domains.
    pub fn allows(&self, domain: &str) -> (allowed: bool)
        ensures
            allowed == self@.allows(domain@),
    {
        let ghost domains = view_strings(self.allowed_domains@);
        let mut i: usize = 0;
        while i < self.allowed_domains.len()
            invariant
                i <= self.allowed_domains.len(),
                domains == view_strings(self.allowed_domains@),
                forall|j: int| 0 <= j < i ==> domains[j] != domain@,
            decreases self.allowed_domains.len() - i,
        {
            if same_text(self.allowed_domains[i].as_str(), domain) {
                assert(domains[i as int] == domain@);
                return true;
            }
            i += 1;
        }
        false
    }

    /// Tells whether the address `url` is on one of the source's domains.
    pub fn serves(&self, url: &str) -> (served: bool)
        ensures
            served == self@.serves(url@),
    {
        match url_domain(url) {
            Some(domain) => self.allows(domain.as_str()),
            None => false,
        }
    }
}

} // verus!
