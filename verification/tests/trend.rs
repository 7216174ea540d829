use clanko_zbierac::discord::{html_to_markdown, Discord};
use clanko_zbierac::error::Error;
use clanko_zbierac::render::TextRule;
use clanko_zbierac::source::Field;
use clanko_zbierac::trend::{logged_default, Trend};
use clanko_zbierac::{markdown_file_name, pdf_file_name, MediaConfig};

#[test]
fn logged_default_is_false() {
    assert!(!logged_default());
}

#[test]
fn default_trend_has_no_credentials() {
    let trend = Trend::default();
    assert_eq!(trend.username, "");
    assert_eq!(trend.password, "");
    assert!(!trend.logged);
    assert!(!trend.logged());
}

#[test]
fn trend_comes_from_the_configuration() {
    let configured = Trend { username: "u".to_string(), password: "p".to_string(), logged: true };
    let config = MediaConfig { trend: Some(configured.clone()) };
    assert_eq!(Trend::from(config), configured);
    assert_eq!(Trend::from(MediaConfig { trend: None }), Trend::default());
    assert_eq!(Trend::from(MediaConfig::default()), Trend::default());
    assert_eq!(MediaConfig::default().trend, None);
}

#[test]
fn descriptor_lists_the_selectors_in_their_order() {
    let descriptor = Trend::descriptor();
    assert_eq!(descriptor.name, "trend");
    assert_eq!(descriptor.allowed_domains, vec!["www.trend.sk".to_string(), "trend.sk".to_string()]);
    let expected = [
        (Field::Title, "h1[data-don=\"article_title\"]"),
        (Field::Author, "div[data-don=\"article_author\"]"),
        (Field::DayMonth, "span[class=\"datetime-day-month\"]"),
        (Field::Year, "span[class=\"datetime-year\"]"),
        (Field::Time, "span[class=\"datetime-time\"]"),
        (Field::Perex, "p[data-don=\"article_perex\"]"),
        (Field::Body, "div[data-don=\"article_body\"]"),
    ];
    assert_eq!(descriptor.selectors.len(), expected.len());
    for i in 0..expected.len() {
        assert_eq!(descriptor.selectors[i].field, expected[i].0);
        assert_eq!(descriptor.selectors[i].selector, expected[i].1);
    }
    assert_eq!(descriptor.login.url, "https://sso.newsandmedia.sk/login");
    assert_eq!(descriptor.login.token_selector, "input[name=\"_csrf_token\"]");
    assert_eq!(descriptor.login.token_attr, "value");
}

#[test]
fn descriptor_holds_the_rules_of_the_site() {
    let rules = Trend::descriptor().rules;
    assert_eq!(
        rules.excluded,
        vec![
            "article-related".to_string(),
            "unlock-subscription".to_string(),
            "attribution".to_string()
        ]
    );
    assert_eq!(rules.rule_for("h2"), TextRule::Heading);
    assert_eq!(rules.rule_for("strong"), TextRule::Heading);
    assert_eq!(rules.rule_for("dt"), TextRule::Heading);
    assert_eq!(rules.rule_for("itm-params"), TextRule::Caption);
    assert_eq!(rules.rule_for("figcaption"), TextRule::Caption);
    assert_eq!(rules.rule_for("dd"), TextRule::Term);
    assert_eq!(rules.rule_for("p"), TextRule::Plain);
    assert_eq!(rules.rule_for("h1"), TextRule::Plain);
}

#[test]
fn fields_have_names_and_two_are_mandatory() {
    let fields = [
        (Field::Title, "title", true),
        (Field::Author, "author", false),
        (Field::DayMonth, "day_month", false),
        (Field::Year, "year", false),
        (Field::Time, "time", false),
        (Field::Perex, "perex", false),
        (Field::Body, "body", true),
    ];
    for (field, name, mandatory) in fields {
        assert_eq!(field.name(), name);
        assert_eq!(field.mandatory(), mandatory);
    }
}

#[test]
fn errors_have_messages() {
    assert_eq!(Error::UnsupportedDomain.message(), "unsupported domain");
    assert_eq!(Error::TokenNotFound.message(), "csrf token not found");
    assert_eq!(Error::NetworkError.message(), "network error");
    assert_eq!(Error::MissingMandatoryField(Field::Title).message(), "no article_title");
    assert_eq!(Error::MissingMandatoryField(Field::Body).message(), "no article_body");
    assert_eq!(Error::NoSourceForDomain.message(), "no source for domain");
}

#[test]
fn discord_title_is_the_trimmed_title_of_the_page() {
    let page = "<html><body><h1 data-don=\"article_title\">\n  Tesla <em>rastie</em> \n</h1><h1 data-don=\"article_title\">second</h1></body></html>";
    assert_eq!(html_to_markdown(page), Ok("Tesla rastie".to_string()));
    assert_eq!(
        html_to_markdown("<h1>no marker</h1>"),
        Err(Error::MissingMandatoryField(Field::Title))
    );
}

#[test]
fn discord_settings_hold_token_and_channel() {
    let discord = Discord { token: "t".to_string(), channel_id: "42".to_string() };
    assert_eq!(discord.clone(), discord);
    assert_eq!(discord.channel_id, "42");
}

#[test]
fn file_names_carry_the_extension() {
    assert_eq!(markdown_file_name("tesla"), "tesla.md");
    assert_eq!(pdf_file_name("tesla"), "tesla.pdf");
    assert_eq!(markdown_file_name(""), ".md");
    assert_eq!(pdf_file_name("a.b"), "a.b.pdf");
}
