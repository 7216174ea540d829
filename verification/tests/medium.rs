use clanko_zbierac::error::Error;
use clanko_zbierac::medium::{
    get_csrf_token, status_is_success, Action, MediumClient, Pending, Request, Response, Source, Step,
};
use clanko_zbierac::source::Field;
use clanko_zbierac::trend::Trend;
use clanko_zbierac::MediaConfig;

const LOGIN_PAGE: &str = "<html><body><form method=\"post\">\
<input type=\"text\" name=\"_username\">\
<input type=\"hidden\" name=\"_csrf_token\" value=\"tok-123\">\
</form></body></html>";

const LOGIN_PAGE_WITHOUT_TOKEN: &str = "<html><body><form method=\"post\">\
<input type=\"text\" name=\"_username\">\
<input type=\"password\" name=\"_password\">\
</form></body></html>";

const ARTICLE: &str = "<h1 data-don=\"article_title\">Tesla</h1>\
<div data-don=\"article_body\"><p>Hello</p></div>";

const URL: &str = "https://www.trend.sk/biznis/tesla";

fn client(logged: bool) -> MediumClient {
    MediumClient::new(MediaConfig {
        trend: Some(Trend { username: "jan".to_string(), password: "heslo".to_string(), logged }),
    })
}

fn pending(step: Step) -> Pending {
    Pending { step, medium: 0, url: URL.to_string() }
}

fn received(body: &str) -> Response {
    Response::Received { status: 200, body: body.to_string() }
}

#[test]
fn new_client_knows_the_trend_source() {
    let client = client(false);
    assert_eq!(client.media.len(), 1);
    assert_eq!(client.media[0].descriptor, Trend::descriptor());
    assert_eq!(client.media[0].username, "jan");
    assert_eq!(client.media[0].password, "heslo");
    assert!(!client.media[0].logged);
    let empty = MediumClient::new(MediaConfig { trend: None });
    assert_eq!(empty.media.len(), 1);
    assert_eq!(empty.media[0].username, "");
    assert_eq!(empty.media[0].password, "");
    assert!(!empty.media[0].logged);
}

#[test]
fn which_medium_goes_by_the_domain() {
    let client = client(false);
    assert_eq!(client.which_medium(URL), Ok(0));
    assert_eq!(client.which_medium("https://trend.sk/"), Ok(0));
    assert_eq!(client.which_medium("http://WWW.TREND.SK/x?y=1#z"), Ok(0));
    assert_eq!(client.which_medium("https://blog.trend.sk/x"), Err(Error::NoSourceForDomain));
    assert_eq!(client.which_medium("https://example.com/trend.sk"), Err(Error::NoSourceForDomain));
    assert_eq!(client.which_medium("https://127.0.0.1/x"), Err(Error::NoSourceForDomain));
    assert_eq!(client.which_medium("www.trend.sk"), Err(Error::NoSourceForDomain));
    assert_eq!(client.which_medium(""), Err(Error::NoSourceForDomain));
}

#[test]
fn which_medium_takes_the_first_source_that_serves() {
    let mut client = client(false);
    client.media.insert(0, Source::from_trend(Trend::default()));
    assert_eq!(client.media.len(), 2);
    assert_eq!(client.which_medium(URL), Ok(0));
    client.media[0].descriptor.allowed_domains = vec!["example.com".to_string()];
    assert_eq!(client.which_medium(URL), Ok(1));
    assert_eq!(client.which_medium("https://example.com/a"), Ok(0));
}

#[test]
fn address_of_another_domain_gets_no_request() {
    let client = client(true);
    assert_eq!(
        client.get_article("https://example.com/article"),
        Action::Fail(Error::NoSourceForDomain)
    );
    assert_eq!(
        client.media[0].article_request("https://example.com/article"),
        Err(Error::UnsupportedDomain)
    );
    assert_eq!(
        client.media[0].article_request("https://sso.newsandmedia.sk/login"),
        Err(Error::UnsupportedDomain)
    );
    assert_eq!(client.media[0].article_request("not an address"), Err(Error::UnsupportedDomain));
}

#[test]
fn address_of_the_source_gets_a_request() {
    let client = client(true);
    assert_eq!(
        client.media[0].article_request(URL),
        Ok(Request::Get { url: URL.to_string() })
    );
    assert!(client.media[0].descriptor.serves(URL));
    assert!(client.media[0].descriptor.allows("trend.sk"));
    assert!(!client.media[0].descriptor.allows("Trend.sk"));
    assert!(!client.media[0].descriptor.allows(URL));
}

#[test]
fn first_action_without_a_login_is_the_login_page() {
    let client = client(false);
    assert_eq!(
        client.get_article(URL),
        Action::Send {
            request: Request::Get { url: "https://sso.newsandmedia.sk/login".to_string() },
            pending: pending(Step::LoginPage),
        }
    );
}

#[test]
fn first_action_after_a_login_is_the_article() {
    let client = client(true);
    assert_eq!(
        client.get_article(URL),
        Action::Send {
            request: Request::Get { url: URL.to_string() },
            pending: pending(Step::Article),
        }
    );
}

#[test]
fn login_page_without_token_ends_the_login() {
    let mut client = client(false);
    let action = client.receive(pending(Step::LoginPage), received(LOGIN_PAGE_WITHOUT_TOKEN));
    assert_eq!(action, Action::Fail(Error::TokenNotFound));
    assert!(!matches!(action, Action::Send { .. }));
    assert!(!client.media[0].logged);
    assert_eq!(
        client.media[0].login_request(LOGIN_PAGE_WITHOUT_TOKEN),
        Err(Error::TokenNotFound)
    );
}

#[test]
fn login_page_with_token_gets_the_form_sent() {
    let mut client = client(false);
    let action = client.receive(pending(Step::LoginPage), received(LOGIN_PAGE));
    match action {
        Action::Send { request: Request::PostForm { url, form }, pending } => {
            assert_eq!(url, "https://sso.newsandmedia.sk/login");
            assert_eq!(form.csrf_token, "tok-123");
            assert_eq!(form.username, "jan");
            assert_eq!(form.password, "heslo");
            assert_eq!(pending.step, Step::LoginReply);
            assert_eq!(pending.medium, 0);
            assert_eq!(pending.url, URL);
        },
        _ => panic!("the login form is sent"),
    }
    assert!(!client.media[0].logged);
}

#[test]
fn status_of_the_login_page_is_not_looked_at() {
    let mut client = client(false);
    let action = client.receive(
        pending(Step::LoginPage),
        Response::Received { status: 500, body: LOGIN_PAGE.to_string() },
    );
    assert!(matches!(action, Action::Send { request: Request::PostForm { .. }, .. }));
}

#[test]
fn reply_to_the_login_form_logs_in_and_asks_for_the_article() {
    let mut client = client(false);
    let action = client.receive(
        pending(Step::LoginReply),
        Response::Received { status: 302, body: String::new() },
    );
    assert_eq!(
        action,
        Action::Send {
            request: Request::Get { url: URL.to_string() },
            pending: pending(Step::Article),
        }
    );
    assert!(client.media[0].logged);
    assert_eq!(client.media.len(), 1);
    assert_eq!(client.media[0].username, "jan");
    assert!(matches!(
        client.get_article(URL),
        Action::Send { request: Request::Get { .. }, pending: Pending { step: Step::Article, .. } }
    ));
}

#[test]
fn article_is_converted() {
    let mut client = client(true);
    match client.receive(pending(Step::Article), received(ARTICLE)) {
        Action::Done(document) => {
            assert_eq!(document.slug, "tesla");
            assert_eq!(document.to_markdown(), "---\ntitle: tesla\n---\nHello");
        },
        _ => panic!("the article is converted"),
    }
}

#[test]
fn article_that_is_none_fails() {
    let mut client = client(true);
    assert_eq!(
        client.receive(pending(Step::Article), received("<p>Log in to read</p>")),
        Action::Fail(Error::MissingMandatoryField(Field::Title))
    );
}

#[test]
fn article_with_a_status_other_than_success_is_a_network_error() {
    let mut client = client(true);
    for status in [199u16, 300, 301, 404, 500] {
        assert_eq!(
            client.receive(
                pending(Step::Article),
                Response::Received { status, body: ARTICLE.to_string() }
            ),
            Action::Fail(Error::NetworkError)
        );
    }
    for status in [200u16, 204, 299] {
        assert!(matches!(
            client.receive(
                pending(Step::Article),
                Response::Received { status, body: ARTICLE.to_string() }
            ),
            Action::Done(_)
        ));
    }
}

#[test]
fn request_that_did_not_get_through_is_a_network_error() {
    let mut client = client(false);
    for step in [Step::LoginPage, Step::LoginReply, Step::Article] {
        assert_eq!(client.receive(pending(step), Response::Failed), Action::Fail(Error::NetworkError));
    }
    assert!(!client.media[0].logged);
}

#[test]
fn reply_for_a_source_that_is_not_there_fails() {
    let mut client = client(false);
    let stray = Pending { step: Step::LoginReply, medium: 1, url: URL.to_string() };
    assert_eq!(client.receive(stray, received("")), Action::Fail(Error::NoSourceForDomain));
    assert!(!client.media[0].logged);
}

#[test]
fn whole_run_logs_in_once() {
    let mut client = client(false);
    let mut requests: Vec<Request> = Vec::new();
    let mut action = client.get_article(URL);
    let mut done = None;
    for _ in 0..10 {
        match action {
            Action::Send { request, pending } => {
                let body = match (&request, pending.step) {
                    (Request::Get { .. }, Step::LoginPage) => LOGIN_PAGE,
                    (Request::PostForm { .. }, Step::LoginReply) => "",
                    (Request::Get { .. }, Step::Article) => ARTICLE,
                    _ => panic!("request and step belong together"),
                };
                requests.push(request);
                action = client.receive(pending, received(body));
            },
            Action::Done(document) => {
                done = Some(document);
                break;
            },
            Action::Fail(e) => panic!("the run fails: {}", e.message()),
        }
    }
    assert_eq!(requests.len(), 3);
    assert!(matches!(requests[0], Request::Get { .. }));
    assert!(matches!(requests[1], Request::PostForm { .. }));
    assert_eq!(requests[2], Request::Get { url: URL.to_string() });
    assert_eq!(done.unwrap().slug, "tesla");
    assert_eq!(
        client.get_article(URL),
        Action::Send {
            request: Request::Get { url: URL.to_string() },
            pending: pending(Step::Article),
        }
    );
}

#[test]
fn token_is_the_value_of_the_first_token_field() {
    let login = Trend::descriptor().login;
    assert_eq!(get_csrf_token(&login, LOGIN_PAGE), Ok("tok-123".to_string()));
    assert_eq!(get_csrf_token(&login, LOGIN_PAGE_WITHOUT_TOKEN), Err(Error::TokenNotFound));
    let without_value = "<input name=\"_csrf_token\">";
    assert_eq!(get_csrf_token(&login, without_value), Err(Error::TokenNotFound));
    let two = "<input name=\"_csrf_token\" value=\"a\"><input name=\"_csrf_token\" value=\"b\">";
    assert_eq!(get_csrf_token(&login, two), Ok("a".to_string()));
    let empty = "<input name=\"_csrf_token\" value=\"\">";
    assert_eq!(get_csrf_token(&login, empty), Ok(String::new()));
}

#[test]
fn login_form_carries_token_and_credentials() {
    let client = client(false);
    assert_eq!(
        client.media[0].login_form("t0k".to_string()),
        Request::PostForm {
            url: "https://sso.newsandmedia.sk/login".to_string(),
            form: clanko_zbierac::medium::LoginForm {
                csrf_token: "t0k".to_string(),
                username: "jan".to_string(),
                password: "heslo".to_string(),
            },
        }
    );
}

#[test]
fn success_is_a_status_from_200_to_299() {
    assert!(!status_is_success(0));
    assert!(!status_is_success(199));
    assert!(status_is_success(200));
    assert!(status_is_success(299));
    assert!(!status_is_success(300));
    assert!(!status_is_success(u16::MAX));
}

#[test]
fn source_converts_a_page_of_its_own() {
    let source = Source::from_trend(Trend::default());
    assert_eq!(
        source.html_to_markdown(ARTICLE),
        Ok(("---\ntitle: tesla\n---\nHello".to_string(), "tesla".to_string()))
    );
    assert_eq!(
        source.login_page_request(),
        Request::Get { url: "https://sso.newsandmedia.sk/login".to_string() }
    );
}
