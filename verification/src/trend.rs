//! The `trend` source: the subscriber's settings and the description of the site.

use crate::MediaConfig;
use crate::document::{convert_to_text, converted, text_and_slug, view_text_and_slug};
use crate::error::Error;
use crate::render::{RenderRules, RenderRulesView, TagRule, TagRuleView, TextRule};
use crate::source::{
    Field, FieldSelector, FieldSelectorView, LoginDescriptor, LoginDescriptorView,
    SourceDescriptor, SourceDescriptorView,
};
use vstd::prelude::*;

verus! {

/// Credentials of a subscriber, with the flag that records a completed login.
#[derive(Clone, Debug, PartialEq, Eq)]
pub struct Trend {
    pub username: String,
    pub password: String,
    pub logged: bool,
}

/// The mathematical model of a [`Trend`].
pub struct TrendView {
    pub username: Seq<char>,
    pub password: Seq<char>,
    pub logged: bool,
}

impl View for Trend {
    type V = TrendView;

    open spec fn view(&self) -> TrendView {
        TrendView { username: self.username@, password: self.password@, logged: self.logged }
    }
}

/// The value of the `logged` flag where the configuration does not set it.
pub fn logged_default() -> (logged: bool)
    ensures
        !logged,
{
    false
}

/// The settings used where the configuration names no `trend` source: empty
/// credentials, not logged in.
pub open spec fn default_trend() -> TrendView {
    TrendView { username: Seq::empty(), password: Seq::empty(), logged: false }
}

/// The settings that `config` holds for the source; the default ones where it holds none.
pub open spec fn trend_of(config: MediaConfig) -> TrendView {
    match config.trend {
        Some(trend) => trend@,
        None => default_trend(),
    }
}

impl Default for Trend {
    fn default() -> (trend: Trend)
        ensures
            trend@ == default_trend(),
    {
        Trend { username: String::new(), password: String::new(), logged: logged_default() }
    }
}

impl vstd::std_specs::convert::FromSpecImpl<MediaConfig> for Trend {
    /// What `from` returns is stated over the models, in its own contract:
    /// the default settings hold strings, and a string is known by its
    /// characters alone.
    open spec fn obeys_from_spec() -> bool {
        false
    }

    open spec fn from_spec(config: MediaConfig) -> Trend {
        match config.trend {
            Some(trend) => trend,
            None => arbitrary(),
        }
    }
}

impl From<MediaConfig> for Trend {
    /// The settings that `config` holds for the source; the default ones where it holds none.
    fn from(config: MediaConfig) -> (trend: Trend)
        ensures
            trend@ == trend_of(config),
    {
        match config.trend {
            Some(trend) => trend,
            None => Trend::default(),
        }
    }
}

/// The description of the site: its domains, the selectors of the parts of an
/// article in the order in which they are tried, the classes of the boxes that
/// are left out of the body, the tags whose text is written in a special way,
/// and the login page.
pub open spec fn trend_descriptor() -> SourceDescriptorView {
    SourceDescriptorView {
        name: "trend"@,
        allowed_domains: seq!["www.trend.sk"@, "trend.sk"@],
        selectors: seq![
            FieldSelectorView { field: Field::Title, selector: "h1[data-don=\"article_title\"]"@ },
            FieldSelectorView {
                field: Field::Author,
                selector: "div[data-don=\"article_author\"]"@,
            },
            FieldSelectorView {
                field: Field::DayMonth,
                selector: "span[class=\"datetime-day-month\"]"@,
            },
            FieldSelectorView { field: Field::Year, selector: "span[class=\"datetime-year\"]"@ },
            FieldSelectorView { field: Field::Time, selector: "span[class=\"datetime-time\"]"@ },
            FieldSelectorView { field: Field::Perex, selector: "p[data-don=\"article_perex\"]"@ },
            FieldSelectorView { field: Field::Body, selector: "div[data-don=\"article_body\"]"@ },
        ],
        rules: RenderRulesView {
            excluded: seq!["article-related"@, "unlock-subscription"@, "attribution"@],
            tags: seq![
                TagRuleView { tag: "h2"@, rule: TextRule::Heading },
                TagRuleView { tag: "strong"@, rule: TextRule::Heading },
                TagRuleView { tag: "dt"@, rule: TextRule::Heading },
                TagRuleView { tag: "itm-params"@, rule: TextRule::Caption },
                TagRuleView { tag: "figcaption"@, rule: TextRule::Caption },
                TagRuleView { tag: "dd"@, rule: TextRule::Term },
            ],
        },
        login: LoginDescriptorView {
            url: "https://sso.newsandmedia.sk/login"@,
            token_selector: "input[name=\"_csrf_token\"]"@,
            token_attr: "value"@,
        },
    }
}

/// A selector for `field`.
fn selector(field: Field, pattern: &str) -> (s: FieldSelector)
    ensures
        s@ == (FieldSelectorView { field, selector: pattern@ }),
{
    FieldSelector { field, selector: String::from_str(pattern) }
}

/// A line of the rule table.
fn tag_rule(tag: &str, rule: TextRule) -> (line: TagRule)
    ensures
        line@ == (TagRuleView { tag: tag@, rule }),
{
    TagRule { tag: String::from_str(tag), rule }
}

impl Trend {
    /// Tells whether the login has been completed.
    pub fn logged(&self) -> (logged: bool)
        ensures
            logged == self.logged,
    {
        self.logged
    }

    /// The description of the site.
    pub fn descriptor() -> (descriptor: SourceDescriptor)
        ensures
            descriptor@ == trend_descriptor(),
    {
        let mut allowed_domains: Vec<String> = Vec::new();
        allowed_domains.push(String::from_str("www.trend.sk"));
        allowed_domains.push(String::from_str("trend.sk"));
        let mut selectors: Vec<FieldSelector> = Vec::new();
        selectors.push(selector(Field::Title, "h1[data-don=\"article_title\"]"));
        selectors.push(selector(Field::Author, "div[data-don=\"article_author\"]"));
        selectors.push(selector(Field::DayMonth, "span[class=\"datetime-day-month\"]"));
        selectors.push(selector(Field::Year, "span[class=\"datetime-year\"]"));
        selectors.push(selector(Field::Time, "span[class=\"datetime-time\"]"));
        selectors.push(selector(Field::Perex, "p[data-don=\"article_perex\"]"));
        selectors.push(selector(Field::Body, "div[data-don=\"article_body\"]"));
        let mut excluded: Vec<String> = Vec::new();
        excluded.push(String::from_str("article-related"));
        excluded.push(String::from_str("unlock-subscription"));
        excluded.push(String::from_str("attribution"));
        let mut tags: Vec<TagRule> = Vec::new();
        tags.push(tag_rule("h2", TextRule::Heading));
        tags.push(tag_rule("strong", TextRule::Heading));
        tags.push(tag_rule("dt", TextRule::Heading));
        tags.push(tag_rule("itm-params", TextRule::Caption));
        tags.push(tag_rule("figcaption", TextRule::Caption));
        tags.push(tag_rule("dd", TextRule::Term));
        let descriptor = SourceDescriptor {
            name: String::from_str("trend"),
            allowed_domains,
            selectors,
            rules: RenderRules { excluded, tags },
            login: LoginDescriptor {
                url: String::from_str("https://sso.newsandmedia.sk/login"),
                token_selector: String::from_str("input[name=\"_csrf_token\"]"),
                token_attr: String::from_str("value"),
            },
        };
        proof {
            let expected = trend_descriptor();
            assert(descriptor@.allowed_domains =~= expected.allowed_domains);
            assert(descriptor@.selectors =~= expected.selectors);
            assert(descriptor@.rules.excluded =~= expected.rules.excluded);
            assert(descriptor@.rules.tags =~= expected.rules.tags);
        }
        descriptor
    }

    /// Converts a page of the site into the text of the article and its slug.
    pub fn html_to_markdown(&self, content: &str) -> (result: Result<(String, String), Error>)
        ensures
            view_text_and_slug(result) == text_and_slug(converted(trend_descriptor(), content@)),
    {
        let descriptor = Trend::descriptor();
        convert_to_text(&descriptor, content)
    }
}

} // verus!
