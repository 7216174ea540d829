use clanko_zbierac::document::{assemble, convert, RenderedDocument};
use clanko_zbierac::error::Error;
use clanko_zbierac::extract::ExtractedField;
use clanko_zbierac::source::Field;
use clanko_zbierac::trend::Trend;

fn field(field: Field, text: &str) -> ExtractedField {
    ExtractedField { field, node: None, text: Some(text.to_string()) }
}

fn absent(field: Field) -> ExtractedField {
    ExtractedField { field, node: None, text: None }
}

fn fixture() -> String {
    let mut page = String::from("<html><head><title>Trend</title></head><body>");
    page.push_str("<h1 data-don=\"article_title\">Tesla</h1>");
    page.push_str("<div data-don=\"article_author\">J. Doe</div>");
    page.push_str("<span class=\"datetime-day-month\">5.3.</span>");
    page.push_str("<span class=\"datetime-year\">2024</span>");
    page.push_str("<span class=\"datetime-time\">10:00</span>");
    page.push_str("<p data-don=\"article_perex\"><span>Perex</span>Summary.</p>");
    page.push_str("<div data-don=\"article_body\">");
    page.push_str("<div class=\"article-related\"><p>Read also</p><h2>More</h2></div>");
    page.push_str("<p>Hello</p><h2>Next</h2>");
    page.push_str("</div></body></html>");
    page
}

#[test]
fn end_to_end_document_of_the_fixture() {
    let document = convert(&Trend::descriptor(), &fixture()).unwrap();
    assert_eq!(document.title, "Tesla");
    assert_eq!(document.slug, "tesla");
    assert_eq!(document.author.as_deref(), Some("J. Doe"));
    assert_eq!(document.date.as_deref(), Some("5.3.2024 10:00"));
    assert_eq!(document.summary.as_deref(), Some("Summary."));
    assert_eq!(document.body, "Hello\n\n## Next\n");
    assert_eq!(
        document.to_markdown(),
        "---\ntitle: tesla\nauthor: J. Doe\ndate: 5.3.2024 10:00\n---\n\n# Summary.\nHello\n\n## Next\n"
    );
    assert!(!document.to_markdown().contains("Read also"));
    assert!(!document.to_markdown().contains("More"));
}

#[test]
fn end_to_end_text_and_slug_of_the_fixture() {
    let trend = Trend::default();
    let (article, title) = trend.html_to_markdown(&fixture()).unwrap();
    assert_eq!(
        article,
        "---\ntitle: tesla\nauthor: J. Doe\ndate: 5.3.2024 10:00\n---\n\n# Summary.\nHello\n\n## Next\n"
    );
    assert_eq!(title, "tesla");
}

#[test]
fn conversion_of_the_same_page_gives_the_same_document() {
    let first = convert(&Trend::descriptor(), &fixture());
    let second = convert(&Trend::descriptor(), &fixture());
    assert_eq!(first, second);
    assert_eq!(first.unwrap().to_markdown(), second.unwrap().to_markdown());
    let broken = "<p>no article</p>";
    assert_eq!(convert(&Trend::descriptor(), broken), convert(&Trend::descriptor(), broken));
}

#[test]
fn conversion_fails_as_a_whole_without_a_mandatory_field() {
    let no_body = "<h1 data-don=\"article_title\">T</h1>";
    assert_eq!(
        convert(&Trend::descriptor(), no_body),
        Err(Error::MissingMandatoryField(Field::Body))
    );
    let no_title = "<div data-don=\"article_body\">B</div>";
    assert_eq!(
        convert(&Trend::descriptor(), no_title),
        Err(Error::MissingMandatoryField(Field::Title))
    );
    let trend = Trend::default();
    assert_eq!(
        trend.html_to_markdown(no_title),
        Err(Error::MissingMandatoryField(Field::Title))
    );
}

#[test]
fn document_with_only_the_mandatory_fields_has_no_other_line() {
    let page = "<h1 data-don=\"article_title\">Only Title</h1><div data-don=\"article_body\"><p>Body</p></div>";
    let document = convert(&Trend::descriptor(), page).unwrap();
    assert_eq!(document.author, None);
    assert_eq!(document.date, None);
    assert_eq!(document.summary, None);
    assert_eq!(document.to_markdown(), "---\ntitle: only_title\n---\nBody");
}

#[test]
fn assemble_puts_the_fields_into_the_document() {
    let fields = vec![
        field(Field::Title, "Tesla Model S"),
        field(Field::Author, "J. Doe"),
        field(Field::DayMonth, "5.3."),
        field(Field::Year, "2024"),
        field(Field::Time, "10:00"),
        field(Field::Perex, "Summary."),
        field(Field::Body, "Hello"),
    ];
    let document = assemble(&fields).unwrap();
    assert_eq!(
        document,
        RenderedDocument {
            title: "Tesla Model S".to_string(),
            slug: "tesla_model_s".to_string(),
            author: Some("J. Doe".to_string()),
            date: Some("5.3.2024 10:00".to_string()),
            summary: Some("Summary.".to_string()),
            body: "Hello".to_string(),
        }
    );
}

#[test]
fn date_is_day_and_month_then_year_then_a_space_then_time() {
    let fields = vec![
        field(Field::Title, "T"),
        field(Field::DayMonth, "24.12."),
        field(Field::Year, "2023"),
        field(Field::Time, "18:30"),
        field(Field::Body, "B"),
    ];
    assert_eq!(assemble(&fields).unwrap().date.as_deref(), Some("24.12.2023 18:30"));
}

#[test]
fn date_is_composed_when_the_time_is_met() {
    let late = vec![
        field(Field::Title, "T"),
        field(Field::Time, "18:30"),
        field(Field::DayMonth, "24.12."),
        field(Field::Year, "2023"),
        field(Field::Body, "B"),
    ];
    assert_eq!(assemble(&late).unwrap().date.as_deref(), Some(" 18:30"));
    let no_year = vec![
        field(Field::Title, "T"),
        field(Field::DayMonth, "24.12."),
        absent(Field::Year),
        field(Field::Time, "18:30"),
        field(Field::Body, "B"),
    ];
    assert_eq!(assemble(&no_year).unwrap().date.as_deref(), Some("24.12. 18:30"));
}

#[test]
fn date_is_absent_without_a_time() {
    let fields = vec![
        field(Field::Title, "T"),
        field(Field::DayMonth, "24.12."),
        field(Field::Year, "2023"),
        absent(Field::Time),
        field(Field::Body, "B"),
    ];
    let document = assemble(&fields).unwrap();
    assert_eq!(document.date, None);
    assert_eq!(document.to_markdown(), "---\ntitle: t\n---\nB");
}

#[test]
fn assemble_fails_without_a_title_or_a_body() {
    assert_eq!(assemble(&Vec::new()), Err(Error::MissingMandatoryField(Field::Title)));
    assert_eq!(
        assemble(&vec![field(Field::Body, "B")]),
        Err(Error::MissingMandatoryField(Field::Title))
    );
    assert_eq!(
        assemble(&vec![field(Field::Title, "T"), absent(Field::Body)]),
        Err(Error::MissingMandatoryField(Field::Body))
    );
    assert_eq!(
        assemble(&vec![absent(Field::Title), field(Field::Body, "B")]),
        Err(Error::MissingMandatoryField(Field::Title))
    );
}

#[test]
fn assemble_takes_the_later_of_two_fields_of_a_kind() {
    let fields = vec![
        field(Field::Title, "First"),
        field(Field::Title, "Second"),
        field(Field::Body, "one"),
        absent(Field::Body),
        field(Field::Author, "A"),
        field(Field::Author, "B"),
    ];
    let document = assemble(&fields).unwrap();
    assert_eq!(document.title, "Second");
    assert_eq!(document.slug, "second");
    assert_eq!(document.body, "one");
    assert_eq!(document.author.as_deref(), Some("B"));
}

#[test]
fn markdown_has_a_line_for_each_field_that_is_there() {
    let document = RenderedDocument {
        title: "Ignored In Text".to_string(),
        slug: "the_slug".to_string(),
        author: None,
        date: Some("1.1.2020 00:00".to_string()),
        summary: None,
        body: "text".to_string(),
    };
    assert_eq!(document.to_markdown(), "---\ntitle: the_slug\ndate: 1.1.2020 00:00\n---\ntext");
    let with_summary = RenderedDocument {
        title: String::new(),
        slug: String::new(),
        author: Some("A".to_string()),
        date: None,
        summary: Some("S".to_string()),
        body: String::new(),
    };
    assert_eq!(with_summary.to_markdown(), "---\ntitle: \nauthor: A\n---\n\n# S\n");
}
