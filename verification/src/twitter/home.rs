//! The requests that fetch the X home page: the page itself, then the
//! page its migration redirect points to, then the submission of its
//! migration form. The caller sends each request and hands back the page
//! that came; these functions decide what follows.

use vstd::prelude::*;

use crate::error::AppError;
use crate::pairs::{ascending_pairs_set, last_wins, names_ascending, TextPairs};
use crate::text::{push_char, trim_end_char, trim_end_matches_char};
use crate::twitter::html::{form_view, migration_form_of, redirect_url_from, MigrationForm, TwitterHomePage};
use crate::twitter::transaction::{build_document_headers, document_headers};
use crate::weburl::{join_url, parse_url, scheme_and_domain, url_join, url_parse, url_scheme_domain};

verus! {

/// The home page address before parsing: the web origin without its
/// trailing `/`, then one `/`.
pub open spec fn home_url_text(web_base_url: Seq<char>) -> Seq<char> {
    trim_end_char(web_base_url, '/').push('/')
}

/// The parsed home page URL, or the message of the error.
pub open spec fn spec_home_url(web_base_url: Seq<char>) -> Result<Seq<char>, Seq<char>> {
    match url_parse(home_url_text(web_base_url)) {
        Ok(parts) => Ok(parts.0),
        Err(error) => Err("invalid twitter web base url: "@ + error),
    }
}

/// The home page URL of a web origin (see `spec_home_url`).
pub fn twitter_home_url(web_base_url: &str) -> (res: Result<String, AppError>)
    ensures
        match spec_home_url(web_base_url@) {
            Ok(url) => res matches Ok(u) && u@ == url,
            Err(message) => res matches Err(e) && e.config_message() == Some(message),
        },
{
    let mut text = trim_end_matches_char(web_base_url, '/');
    push_char(&mut text, '/');
    match parse_url(text.as_str()) {
        Ok(parsed) => Ok(parsed.href),
        Err(error) => {
            let mut message = "invalid twitter web base url: ".to_owned();
            message.append(error.as_str());
            Err(AppError::InvalidRequestConfig(message))
        },
    }
}

/// A migration link joined to the page URL, or the message of the error.
pub open spec fn spec_migration_url(base: Seq<char>, target: Seq<char>) -> Result<Seq<char>, Seq<char>> {
    match url_join(base, target) {
        Ok(url) => Ok(url),
        Err(error) => Err("invalid twitter migration url `"@ + target + "`: "@ + error),
    }
}

/// Resolve a migration link against the URL of the page it was found on.
pub fn resolve_migration_url(base: &str, target: &str) -> (res: Result<String, AppError>)
    ensures
        match spec_migration_url(base@, target@) {
            Ok(url) => res matches Ok(u) && u@ == url,
            Err(message) => res matches Err(e) && e.config_message() == Some(message),
        },
{
    match join_url(base, target) {
        Ok(url) => Ok(url),
        Err(error) => {
            let mut message = "invalid twitter migration url `".to_owned();
            message.append(target);
            message.append("`: ");
            message.append(error.as_str());
            Err(AppError::InvalidRequestConfig(message))
        },
    }
}

/// The headers of a migration form submission: those of a home-page
/// request, with `Referer` set to the page's URL and, when that URL has a
/// domain, `Origin` set to its scheme, `://` and the domain.
pub open spec fn form_headers(request: TextPairs, current_url: Seq<char>) -> Map<Seq<char>, Seq<char>> {
    let with_referer = document_headers(request).insert("Referer"@, current_url);
    match url_scheme_domain(current_url) {
        Some((scheme, domain)) => with_referer.insert("Origin"@, scheme + "://"@ + domain),
        None => with_referer,
    }
}

/// The headers of a migration form submission, each name once in
/// ascending order (see `form_headers`).
pub fn build_form_headers(request_headers: &Vec<(String, String)>, current_url: &str) -> (headers:
    Vec<(String, String)>)
    requires
        names_ascending(request_headers.deep_view()),
    ensures
        names_ascending(headers.deep_view()),
        last_wins(headers.deep_view()) == form_headers(request_headers.deep_view(), current_url@),
{
    let mut headers = build_document_headers(request_headers);
    ascending_pairs_set(&mut headers, "Referer".to_owned(), current_url.to_owned());
    match scheme_and_domain(current_url) {
        Some((scheme, domain)) => {
            let mut origin = scheme;
            origin.append("://");
            origin.append(domain.as_str());
            ascending_pairs_set(&mut headers, "Origin".to_owned(), origin);
        },
        None => {},
    }
    headers
}

/// Where the fetch of the home page stands: the first page came, the page
/// of the migration redirect came, or the migration form was submitted.
#[derive(Debug, Clone, Copy, PartialEq, Eq)]
pub enum HomePageStage {
    /// The first page came.
    Landing,
    /// The page the migration redirect points to came.
    Redirected,
    /// The answer to the migration form came.
    Submitted,
}

/// One request of the home page fetch.
#[derive(Debug)]
pub struct HomePageRequest {
    /// The HTTP method, as text.
    pub method: String,
    /// The URL.
    pub url: String,
    /// The headers, each name once in ascending order.
    pub headers: Vec<(String, String)>,
    /// The form whose fields are the body, for a form submission.
    pub form: Option<MigrationForm>,
}

/// A request as plain values: method, URL, header map and form parts.
pub type HomeRequestView = (
    Seq<char>,
    Seq<char>,
    Map<Seq<char>, Seq<char>>,
    Option<(Seq<char>, Seq<char>, Seq<(Seq<char>, Seq<char>)>)>,
);

impl HomePageRequest {
    /// The request as plain values.
    pub open spec fn request_view(&self) -> HomeRequestView {
        (self.method@, self.url@, last_wins(self.headers.deep_view()), form_view(self.form))
    }
}

/// The first request: `GET` of the home page with the document headers.
pub open spec fn spec_first_home_request(request: TextPairs, web_base_url: Seq<char>) -> Result<
    HomeRequestView,
    Seq<char>,
> {
    match spec_home_url(web_base_url) {
        Ok(url) => Ok(("GET"@, url, document_headers(request), None)),
        Err(message) => Err(message),
    }
}

/// The request after a page that may hold the migration form: its
/// submission to the action joined to the page URL, with the form's method;
/// nothing when the page holds no form.
pub open spec fn spec_form_step(request: TextPairs, current_url: Seq<char>, html: Seq<char>) -> Result<
    Option<(HomePageStage, HomeRequestView)>,
    Seq<char>,
> {
    match migration_form_of(html) {
        None => Ok(None),
        Some(form) => match spec_migration_url(current_url, form.0) {
            Err(message) => Err(message),
            Ok(action) => Ok(
                Some(
                    (
                        HomePageStage::Submitted,
                        (form.1, action, form_headers(request, current_url), Some(form)),
                    ),
                ),
            ),
        },
    }
}

/// What follows a page of the home page fetch, `current_url` being the URL
/// it came from. After the first page: a `GET` of its migration redirect
/// joined to that URL, or, without a redirect, as after the redirected
/// page. After the redirected page: the submission of its migration form,
/// or nothing without one. After the form's answer: nothing.
pub open spec fn spec_next_home_request(
    request: TextPairs,
    current_url: Seq<char>,
    stage: HomePageStage,
    html: Seq<char>,
) -> Result<Option<(HomePageStage, HomeRequestView)>, Seq<char>> {
    match stage {
        HomePageStage::Landing => match redirect_url_from(html, 0) {
            Some(target) => match spec_migration_url(current_url, target) {
                Err(message) => Err(message),
                Ok(url) => Ok(
                    Some((HomePageStage::Redirected, ("GET"@, url, document_headers(request), None))),
                ),
            },
            None => spec_form_step(request, current_url, html),
        },
        HomePageStage::Redirected => spec_form_step(request, current_url, html),
        HomePageStage::Submitted => Ok(None),
    }
}

/// The request views of a result, or the message of its error.
pub open spec fn home_step_view(res: Result<Option<(HomePageStage, HomePageRequest)>, AppError>) -> Result<
    Option<(HomePageStage, HomeRequestView)>,
    Option<Seq<char>>,
> {
    match res {
        Ok(None) => Ok(None),
        Ok(Some((stage, req))) => Ok(Some((stage, req.request_view()))),
        Err(e) => Err(e.config_message()),
    }
}

/// The message of an error result, kept as an option.
pub open spec fn lifted<T>(r: Result<T, Seq<char>>) -> Result<T, Option<Seq<char>>> {
    match r {
        Ok(v) => Ok(v),
        Err(m) => Err(Some(m)),
    }
}

/// The first request of the home page fetch (see
/// `spec_first_home_request`).
pub fn first_home_page_request(request_headers: &Vec<(String, String)>, web_base_url: &str) -> (res:
    Result<HomePageRequest, AppError>)
    requires
        names_ascending(request_headers.deep_view()),
    ensures
        match spec_first_home_request(request_headers.deep_view(), web_base_url@) {
            Ok(view) => res matches Ok(req) && req.request_view() == view && names_ascending(
                req.headers.deep_view(),
            ),
            Err(message) => res matches Err(e) && e.config_message() == Some(message),
        },
{
    let url = match twitter_home_url(web_base_url) {
        Ok(url) => url,
        Err(e) => return Err(e),
    };
    let headers = build_document_headers(request_headers);
    Ok(HomePageRequest { method: "GET".to_owned(), url, headers, form: None })
}

fn form_step(request_headers: &Vec<(String, String)>, current_url: &str, page: &TwitterHomePage) -> (res:
    Result<Option<(HomePageStage, HomePageRequest)>, AppError>)
    requires
        names_ascending(request_headers.deep_view()),
    ensures
        home_step_view(res) == lifted(
            spec_form_step(request_headers.deep_view(), current_url@, page.html()),
        ),
        res matches Ok(Some((_, req))) ==> names_ascending(req.headers.deep_view()),
{
    match page.migration_form() {
        None => Ok(None),
        Some(form) => {
            let action = match resolve_migration_url(current_url, form.action.as_str()) {
                Ok(url) => url,
                Err(e) => return Err(e),
            };
            let headers = build_form_headers(request_headers, current_url);
            let method = form.method.clone();
            proof {
                assert(method@ == form.method@);
            }
            Ok(
                Some(
                    (
                        HomePageStage::Submitted,
                        HomePageRequest { method, url: action, headers, form: Some(form) },
                    ),
                ),
            )
        },
    }
}

/// What follows a page of the home page fetch (see
/// `spec_next_home_request`): the next stage and request, or `None` when
/// the page is the home page to use.
pub fn next_home_page_request(
    request_headers: &Vec<(String, String)>,
    current_url: &str,
    stage: HomePageStage,
    page: &TwitterHomePage,
) -> (res: Result<Option<(HomePageStage, HomePageRequest)>, AppError>)
    requires
        names_ascending(request_headers.deep_view()),
    ensures
        home_step_view(res) == lifted(
            spec_next_home_request(request_headers.deep_view(), current_url@, stage, page.html()),
        ),
        res matches Ok(Some((_, req))) ==> names_ascending(req.headers.deep_view()),
{
    match stage {
        HomePageStage::Landing => match page.migration_redirect_url() {
            Some(target) => {
                let url = match resolve_migration_url(current_url, target.as_str()) {
                    Ok(url) => url,
                    Err(e) => return Err(e),
                };
                let headers = build_document_headers(request_headers);
                Ok(
                    Some(
                        (
                            HomePageStage::Redirected,
                            HomePageRequest { method: "GET".to_owned(), url, headers, form: None },
                        ),
                    ),
                )
            },
            None => form_step(request_headers, current_url, page),
        },
        HomePageStage::Redirected => form_step(request_headers, current_url, page),
        HomePageStage::Submitted => Ok(None),
    }
}

/// How far a stage is along the fetch: the first page, the redirected
/// page, the form's answer.
pub open spec fn stage_rank(stage: HomePageStage) -> int {
    match stage {
        HomePageStage::Landing => 0,
        HomePageStage::Redirected => 1,
        HomePageStage::Submitted => 2,
    }
}

/// Each step of the home page fetch moves to a later stage, so the fetch
/// sends at most three requests: the first page, the redirect and the form.
pub proof fn lemma_home_fetch_advances(
    request: TextPairs,
    current_url: Seq<char>,
    stage: HomePageStage,
    html: Seq<char>,
)
    ensures
        spec_next_home_request(request, current_url, stage, html) matches Ok(Some((next, _)))
            ==> stage_rank(next) > stage_rank(stage),
        stage == HomePageStage::Submitted ==> spec_next_home_request(
            request,
            current_url,
            stage,
            html,
        ) == Ok::<Option<(HomePageStage, HomeRequestView)>, Seq<char>>(None),
{
}

} // verus!
