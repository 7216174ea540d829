//! The client that gets an article: which source serves an address, when to
//! log in, what to request next and what to make of each reply.
//!
//! The client sends nothing itself. It hands out the next request, and is
//! handed the reply to it.

use crate::MediaConfig;
use crate::document::{
    convert, convert_to_text, converted, text_and_slug, view_text_and_slug, RenderedDocument,
    RenderedDocumentView,
};
use crate::error::{view_text, Error};
use crate::page::{first_attr, found_attr};
use crate::source::{
    LoginDescriptor, LoginDescriptorView, SourceDescriptor, SourceDescriptorView,
};
use crate::trend::{trend_descriptor, trend_of, Trend, TrendView};
use vstd::prelude::*;

verus! {

/// The form that logs a subscriber in.
#[derive(Clone, Debug, PartialEq, Eq)]
pub struct LoginForm {
    pub csrf_token: String,
    pub username: String,
    pub password: String,
}

/// The mathematical model of a [`LoginForm`].
pub struct LoginFormView {
    pub csrf_token: Seq<char>,
    pub username: Seq<char>,
    pub password: Seq<char>,
}

impl View for LoginForm {
    type V = LoginFormView;

    open spec fn view(&self) -> LoginFormView {
        LoginFormView {
            csrf_token: self.csrf_token@,
            username: self.username@,
            password: self.password@,
        }
    }
}

/// A request for the caller to send.
#[derive(Clone, Debug, PartialEq, Eq)]
pub enum Request {
    /// Get the page at `url`.
    Get { url: String },
    /// Post `form` to `url`.
    PostForm { url: String, form: LoginForm },
}

/// The mathematical model of a [`Request`].
pub enum RequestView {
    Get { url: Seq<char> },
    PostForm { url: Seq<char>, form: LoginFormView },
}

impl View for Request {
    type V = RequestView;

    open spec fn view(&self) -> RequestView {
        match self {
            Request::Get { url } => RequestView::Get { url: url@ },
            Request::PostForm { url, form } => RequestView::PostForm { url: url@, form: form@ },
        }
    }
}

/// What came back for a request.
#[derive(Clone, Debug, PartialEq, Eq)]
pub enum Response {
    /// A reply with its status code and its body.
    Received { status: u16, body: String },
    /// No reply: the request did not get through.
    Failed,
}

/// The mathematical model of a [`Response`].
pub enum ResponseView {
    Received { status: u16, body: Seq<char> },
    Failed,
}

impl View for Response {
    type V = ResponseView;

    open spec fn view(&self) -> ResponseView {
        match self {
            Response::Received { status, body } => ResponseView::Received {
                status: *status,
                body: body@,
            },
            Response::Failed => ResponseView::Failed,
        }
    }
}

/// A source with the subscriber's credentials and the state of the session.
#[derive(Clone, Debug, PartialEq, Eq)]
pub struct Source {
    pub descriptor: SourceDescriptor,
    pub username: String,
    pub password: String,
    pub logged: bool,
}

/// The mathematical model of a [`Source`].
pub struct SourceView {
    pub descriptor: SourceDescriptorView,
    pub username: Seq<char>,
    pub password: Seq<char>,
    pub logged: bool,
}

impl View for Source {
    type V = SourceView;

    open spec fn view(&self) -> SourceView {
        SourceView {
            descriptor: self.descriptor@,
            username: self.username@,
            password: self.password@,
            logged: self.logged,
        }
    }
}

/// The models of a sequence of sources, in the same order.
pub open spec fn view_media(media: Seq<Source>) -> Seq<SourceView> {
    media.map_values(|s: Source| s@)
}

/// The reply that the client waits for.
#[derive(Clone, Copy, Debug, PartialEq, Eq, Structural)]
pub enum Step {
    /// The login page.
    LoginPage,
    /// The reply to the login form.
    LoginReply,
    /// The article.
    Article,
}

/// What the client needs to know when the reply to a request comes in: what
/// was asked for, of which source, and the address of the wanted article.
#[derive(Clone, Debug, PartialEq, Eq)]
pub struct Pending {
    pub step: Step,
    pub medium: usize,
    pub url: String,
}

/// The mathematical model of a [`Pending`].
pub struct PendingView {
    pub step: Step,
    pub medium: int,
    pub url: Seq<char>,
}

impl View for Pending {
    type V = PendingView;

    open spec fn view(&self) -> PendingView {
        PendingView { step: self.step, medium: self.medium as int, url: self.url@ }
    }
}

/// What the caller does next.
#[derive(Clone, Debug, PartialEq, Eq)]
pub enum Action {
    /// Send `request`, then hand the reply to [`MediumClient::receive`] with `pending`.
    Send { request: Request, pending: Pending },
    /// Stop: this is the document.
    Done(RenderedDocument),
    /// Stop: the run has failed.
    Fail(Error),
}

/// The mathematical model of an [`Action`].
pub enum ActionView {
    Send { request: RequestView, pending: PendingView },
    Done(RenderedDocumentView),
    Fail(Error),
}

impl View for Action {
    type V = ActionView;

    open spec fn view(&self) -> ActionView {
        match self {
            Action::Send { request, pending } => ActionView::Send {
                request: request@,
                pending: pending@,
            },
            Action::Done(document) => ActionView::Done(document@),
            Action::Fail(e) => ActionView::Fail(*e),
        }
    }
}

/// The token that the login page `page` carries for the login form: the
/// attribute `login.token_attr` of the first element that `login.token_selector` matches.
pub open spec fn token_of(login: LoginDescriptorView, page: Seq<char>) -> Option<Seq<char>> {
    found_attr(page, login.token_selector, login.token_attr)
}

/// The token of the login page `page`; an error where it carries none.
pub open spec fn token_or_error(login: LoginDescriptorView, page: Seq<char>) -> Result<
    Seq<char>,
    Error,
> {
    match token_of(login, page) {
        Some(token) => Ok(token),
        None => Err(Error::TokenNotFound),
    }
}

/// The source `trend` with the settings `trend`.
pub open spec fn trend_source(trend: TrendView) -> SourceView {
    SourceView {
        descriptor: trend_descriptor(),
        username: trend.username,
        password: trend.password,
        logged: trend.logged,
    }
}

/// Whether `status` is a status of success.
pub open spec fn is_success(status: u16) -> bool {
    200 <= status <= 299
}

impl SourceView {
    /// The request for the login page.
    pub open spec fn login_page_request(self) -> RequestView {
        RequestView::Get { url: self.descriptor.login.url }
    }

    /// The request that submits the login form with the token `csrf_token`
    /// and the subscriber's credentials.
    pub open spec fn login_form(self, csrf_token: Seq<char>) -> RequestView {
        RequestView::PostForm {
            url: self.descriptor.login.url,
            form: LoginFormView {
                csrf_token,
                username: self.username,
                password: self.password,
            },
        }
    }

    /// The request that submits the login form, with the token of the login
    /// page `page`; an error where the page carries none.
    pub open spec fn login_request(self, page: Seq<char>) -> Result<RequestView, Error> {
        match token_or_error(self.descriptor.login, page) {
            Ok(token) => Ok(self.login_form(token)),
            Err(e) => Err(e),
        }
    }

    /// The request for the article at `url`; an error where the address is
    /// not on one of the source's domains.
    pub open spec fn article_request(self, url: Seq<char>) -> Result<RequestView, Error> {
        if self.descriptor.serves(url) {
            Ok(RequestView::Get { url })
        } else {
            Err(Error::UnsupportedDomain)
        }
    }

    /// The source after a login.
    pub open spec fn logged_in(self) -> SourceView {
        SourceView { logged: true, ..self }
    }

    /// What to do to fetch the article at `url`, once logged in.
    pub open spec fn fetch(self, medium: int, url: Seq<char>) -> ActionView {
        match self.article_request(url) {
            Ok(request) => ActionView::Send {
                request,
                pending: PendingView { step: Step::Article, medium, url },
            },
            Err(e) => ActionView::Fail(e),
        }
    }

    /// What to make of the article page `body` that came with `status`.
    pub open spec fn finish(self, status: u16, body: Seq<char>) -> ActionView {
        if is_success(status) {
            match converted(self.descriptor, body) {
                Ok(document) => ActionView::Done(document),
                Err(e) => ActionView::Fail(e),
            }
        } else {
            ActionView::Fail(Error::NetworkError)
        }
    }
}

/// Whether `k` is the index of the first of `media` that serves the address `url`.
pub open spec fn is_first_serving(media: Seq<SourceView>, url: Seq<char>, k: int) -> bool {
    &&& 0 <= k < media.len()
    &&& media[k].descriptor.serves(url)
    &&& forall|j: int| 0 <= j < k ==> !(#[trigger] media[j]).descriptor.serves(url)
}

/// The index of the first of `media` that serves the address `url`.
pub open spec fn resolved(media: Seq<SourceView>, url: Seq<char>) -> Option<int> {
    if exists|k: int| is_first_serving(media, url, k) {
        Some(choose|k: int| is_first_serving(media, url, k))
    } else {
        None
    }
}

/// The index of the first of `media` that serves the address `url`; an error
/// where none does.
pub open spec fn medium_for(media: Seq<SourceView>, url: Seq<char>) -> Result<int, Error> {
    match resolved(media, url) {
        Some(k) => Ok(k),
        None => Err(Error::NoSourceForDomain),
    }
}

/// The model of an index that may have failed to come about.
pub open spec fn view_medium(medium: Result<usize, Error>) -> Result<int, Error> {
    match medium {
        Ok(k) => Ok(k as int),
        Err(e) => Err(e),
    }
}

/// The first action for the article at `url`: the login page is asked for
/// only where the source that serves the address is not logged in yet.
pub open spec fn started(media: Seq<SourceView>, url: Seq<char>) -> ActionView {
    match medium_for(media, url) {
        Err(e) => ActionView::Fail(e),
        Ok(k) => if media[k].logged {
            media[k].fetch(k, url)
        } else {
            ActionView::Send {
                request: media[k].login_page_request(),
                pending: PendingView { step: Step::LoginPage, medium: k, url },
            }
        },
    }
}

/// The sources and the next action after `response` has come in for `pending`.
/// A request that did not get through ends the run. The login page is searched
/// for the token, whatever its status. A reply to the login form is not
/// looked into: after it the source counts as logged in, and the article is
/// asked for. Only the article must come with a status of success. Where
/// `pending` names a source that the client does not have, the run ends.
pub open spec fn received(media: Seq<SourceView>, pending: PendingView, response: ResponseView) -> (
    Seq<SourceView>,
    ActionView,
) {
    if !(0 <= pending.medium < media.len()) {
        (media, ActionView::Fail(Error::NoSourceForDomain))
    } else {
        let source = media[pending.medium];
        match response {
            ResponseView::Failed => (media, ActionView::Fail(Error::NetworkError)),
            ResponseView::Received { status, body } => match pending.step {
                Step::LoginPage => match source.login_request(body) {
                    Ok(request) => (
                        media,
                        ActionView::Send {
                            request,
                            pending: PendingView { step: Step::LoginReply, ..pending },
                        },
                    ),
                    Err(e) => (media, ActionView::Fail(e)),
                },
                Step::LoginReply => (
                    media.update(pending.medium, source.logged_in()),
                    source.logged_in().fetch(pending.medium, pending.url),
                ),
                Step::Article => (media, source.finish(status, body)),
            },
        }
    }
}

/// An address that is not on a domain of the source is refused, and no
/// request for it is handed out.
pub proof fn law_foreign_address_is_refused(source: SourceView, medium: int, url: Seq<char>)
    requires
        !source.descriptor.serves(url),
    ensures
        source.article_request(url) == Err::<RequestView, Error>(Error::UnsupportedDomain),
        source.fetch(medium, url) == ActionView::Fail(Error::UnsupportedDomain),
{
}

/// An address that no source serves starts nothing: no request is handed out.
pub proof fn law_unserved_address_starts_nothing(media: Seq<SourceView>, url: Seq<char>)
    requires
        forall|k: int| 0 <= k < media.len() ==> !(#[trigger] media[k]).descriptor.serves(url),
    ensures
        started(media, url) == ActionView::Fail(Error::NoSourceForDomain),
{
}

/// A login page without the token ends the login: the form is not sent.
pub proof fn law_missing_token_stops_login(
    media: Seq<SourceView>,
    pending: PendingView,
    status: u16,
    page: Seq<char>,
)
    requires
        0 <= pending.medium < media.len(),
        pending.step == Step::LoginPage,
        token_of(media[pending.medium].descriptor.login, page) is None,
    ensures
        media[pending.medium].login_request(page) == Err::<RequestView, Error>(
            Error::TokenNotFound,
        ),
        received(media, pending, ResponseView::Received { status, body: page }) == (
            media,
            ActionView::Fail(Error::TokenNotFound),
        ),
{
}

/// A source that is logged in is not logged in again: the first action for
/// an article that it serves is the request for the article itself.
pub proof fn law_login_happens_once(media: Seq<SourceView>, url: Seq<char>, k: int)
    requires
        is_first_serving(media, url, k),
        media[k].logged,
    ensures
        started(media, url) == (ActionView::Send {
            request: RequestView::Get { url },
            pending: PendingView { step: Step::Article, medium: k, url },
        }),
{
    lemma_first_serving_is_one(media, url, k);
}

/// There is at most one first source that serves an address.
pub proof fn lemma_first_serving_is_one(media: Seq<SourceView>, url: Seq<char>, k: int)
    requires
        is_first_serving(media, url, k),
    ensures
        resolved(media, url) == Some(k),
{
    let first = choose|i: int| is_first_serving(media, url, i);
    assert(first == k);
}

/// Reads the token for the login form from the login page.
pub fn get_csrf_token(login: &LoginDescriptor, page: &str) -> (token: Result<String, Error>)
    ensures
        view_text(token) == token_or_error(login@, page@),
{
    match first_attr(page, login.token_selector.as_str(), login.token_attr.as_str()) {
        Some(value) => Ok(value),
        None => Err(Error::TokenNotFound),
    }
}

/// Tells whether `status` is a status of success.
pub fn status_is_success(status: u16) -> (success: bool)
    ensures
        success == is_success(status),
{
    200 <= status && status <= 299
}

/// The model of a request that may have been refused.
pub open spec fn view_request(result: Result<Request, Error>) -> Result<RequestView, Error> {
    match result {
        Ok(request) => Ok(request@),
        Err(e) => Err(e),
    }
}

impl Source {
    /// The source `trend` with the settings `trend`.
    pub fn from_trend(trend: Trend) -> (source: Source)
        ensures
            source@ == trend_source(trend@),
    {
        Source {
            descriptor: Trend::descriptor(),
            username: trend.username,
            password: trend.password,
            logged: trend.logged,
        }
    }

    /// The request for the login page.
    pub fn login_page_request(&self) -> (request: Request)
        ensures
            request@ == self@.login_page_request(),
    {
        Request::Get { url: self.descriptor.login.url.clone() }
    }

    /// The request that submits the login form with the token `csrf_token`.
    pub fn login_form(&self, csrf_token: String) -> (request: Request)
        ensures
            request@ == self@.login_form(csrf_token@),
    {
        Request::PostForm {
            url: self.descriptor.login.url.clone(),
            form: LoginForm {
                csrf_token,
                username: self.username.clone(),
                password: self.password.clone(),
            },
        }
    }

    /// The request that submits the login form, for the login page `page`.
    pub fn login_request(&self, page: &str) -> (result: Result<Request, Error>)
        ensures
            view_request(result) == self@.login_request(page@),
    {
        match get_csrf_token(&self.descriptor.login, page) {
            Ok(csrf_token) => Ok(self.login_form(csrf_token)),
            Err(e) => Err(e),
        }
    }

    /// The request for the article at `url`.
    pub fn article_request(&self, url: &str) -> (result: Result<Request, Error>)
        ensures
            view_request(result) == self@.article_request(url@),
    {
        if self.descriptor.serves(url) {
            Ok(Request::Get { url: String::from_str(url) })
        } else {
            Err(Error::UnsupportedDomain)
        }
    }

    /// Converts a page of the source into the text of the article and its slug.
    pub fn html_to_markdown(&self, content: &str) -> (result: Result<(String, String), Error>)
        ensures
            view_text_and_slug(result) == text_and_slug(converted(self@.descriptor, content@)),
    {
        convert_to_text(&self.descriptor, content)
    }

    /// What to do to fetch the article at `url`, once logged in.
    fn fetch(&self, medium: usize, url: String) -> (action: Action)
        ensures
            action@ == self@.fetch(medium as int, url@),
    {
        match self.article_request(url.as_str()) {
            Ok(request) => Action::Send {
                request,
                pending: Pending { step: Step::Article, medium, url },
            },
            Err(e) => Action::Fail(e),
        }
    }

    /// What to make of the article page `body` that came with `status`.
    fn finish(&self, status: u16, body: &str) -> (action: Action)
        ensures
            action@ == self@.finish(status, body@),
    {
        if status_is_success(status) {
            match convert(&self.descriptor, body) {
                Ok(document) => Action::Done(document),
                Err(e) => Action::Fail(e),
            }
        } else {
            Action::Fail(Error::NetworkError)
        }
    }
}

/// The client: the sources that it can get articles from.
#[derive(Clone, Debug, PartialEq, Eq)]
pub struct MediumClient {
    pub media: Vec<Source>,
}

impl View for MediumClient {
    type V = Seq<SourceView>;

    open spec fn view(&self) -> Seq<SourceView> {
        view_media(self.media@)
    }
}

impl MediumClient {
    /// A client for the sources that `config` names: the source `trend`.
    pub fn new(config: MediaConfig) -> (client: MediumClient)
        ensures
            client@ == seq![trend_source(trend_of(config))],
    {
        let mut media: Vec<Source> = Vec::new();
        media.push(Source::from_trend(Trend::from(config)));
        MediumClient { media }
    }

    /// Adds a source after those that the client knows.
    pub fn register(&mut self, source: Source)
        ensures
            final(self)@ == old(self)@.push(source@),
    {
        self.media.push(source);
    }

    /// Finds the source that serves the address `url`: the first one that does.
    pub fn which_medium(&self, url: &str) -> (medium: Result<usize, Error>)
        ensures
            view_medium(medium) == medium_for(self@, url@),
    {
        let mut i: usize = 0;
        while i < self.media.len()
            invariant
                i <= self.media.len(),
                forall|j: int| 0 <= j < i ==> !(#[trigger] self@[j]).descriptor.serves(url@),
            decreases self.media.len() - i,
        {
            if self.media[i].descriptor.serves(url) {
                proof {
                    lemma_first_serving_is_one(self@, url@, i as int);
                }
                return Ok(i);
            }
            i += 1;
        }
        Err(Error::NoSourceForDomain)
    }

    /// Starts getting the article at `url`.
    pub fn get_article(&self, url: &str) -> (action: Action)
        ensures
            action@ == started(self@, url@),
    {
        match self.which_medium(url) {
            Err(e) => Action::Fail(e),
            Ok(medium) => {
                let source = &self.media[medium];
                if source.logged {
                    source.fetch(medium, String::from_str(url))
                } else {
                    Action::Send {
                        request: source.login_page_request(),
                        pending: Pending {
                            step: Step::LoginPage,
                            medium,
                            url: String::from_str(url),
                        },
                    }
                }
            },
        }
    }

    /// Takes the reply to the request that was handed out with `pending`.
    pub fn receive(&mut self, pending: Pending, response: Response) -> (action: Action)
        ensures
            (final(self)@, action@) == received(old(self)@, pending@, response@),
    {
        if pending.medium >= self.media.len() {
            return Action::Fail(Error::NoSourceForDomain);
        }
        let medium = pending.medium;
        match response {
            Response::Failed => Action::Fail(Error::NetworkError),
            Response::Received { status, body } => match pending.step {
                Step::LoginPage => match self.media[medium].login_request(body.as_str()) {
                    Ok(request) => Action::Send {
                        request,
                        pending: Pending { step: Step::LoginReply, medium, url: pending.url },
                    },
                    Err(e) => Action::Fail(e),
                },
                Step::LoginReply => {
                    let mut source = self.media.remove(medium);
                    source.logged = true;
                    let action = source.fetch(medium, pending.url);
                    self.media.insert(medium, source);
                    action
                },
                Step::Article => self.media[medium].finish(status, body.as_str()),
            },
        }
    }
}

} // verus!
