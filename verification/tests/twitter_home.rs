use amagi::error::AppError;
use amagi::twitter::home::{
    build_form_headers, first_home_page_request, next_home_page_request, resolve_migration_url,
    twitter_home_url, HomePageStage,
};
use amagi::twitter::html::{MigrationForm, TwitterHomePage};

fn header<'a>(headers: &'a [(String, String)], name: &str) -> Option<&'a str> {
    headers.iter().find(|(n, _)| n == name).map(|(_, v)| v.as_str())
}

#[test]
fn home_url_of_the_web_origin() {
    assert_eq!(twitter_home_url("https://x.com"), Ok("https://x.com/".to_string()));
    assert_eq!(twitter_home_url("https://x.com///"), Ok("https://x.com/".to_string()));
    match twitter_home_url("not a url") {
        Err(AppError::InvalidRequestConfig(message)) => {
            assert!(message.starts_with("invalid twitter web base url: "))
        }
        other => panic!("unexpected {other:?}"),
    }
}

#[test]
fn migration_links_are_joined_to_the_page() {
    assert_eq!(
        resolve_migration_url("https://x.com/home", "/x/migrate?tok=1"),
        Ok("https://x.com/x/migrate?tok=1".to_string())
    );
    assert_eq!(
        resolve_migration_url("https://x.com/", "https://twitter.com/x/migrate"),
        Ok("https://twitter.com/x/migrate".to_string())
    );
    match resolve_migration_url("https://x.com/", "http://[::1") {
        Err(AppError::InvalidRequestConfig(message)) => {
            assert!(message.starts_with("invalid twitter migration url `http://[::1`: "))
        }
        other => panic!("unexpected {other:?}"),
    }
}

#[test]
fn form_headers_carry_referer_and_origin() {
    let headers = build_form_headers(&Vec::new(), "https://x.com/home");
    assert_eq!(header(&headers, "Referer"), Some("https://x.com/home"));
    assert_eq!(header(&headers, "Origin"), Some("https://x.com"));
    assert_eq!(header(&headers, "Sec-Fetch-Dest"), Some("document"));
    let by_address = build_form_headers(&Vec::new(), "http://127.0.0.1/home");
    assert_eq!(header(&by_address, "Origin"), None);
}

#[test]
fn home_page_fetch_follows_redirect_then_form() {
    let first = first_home_page_request(&Vec::new(), "https://x.com/").unwrap();
    assert_eq!(first.method, "GET");
    assert_eq!(first.url, "https://x.com/");
    assert_eq!(header(&first.headers, "Accept").map(|a| a.starts_with("text/html")), Some(true));

    let landing = TwitterHomePage::new(
        "<script>location='https://twitter.com/x/migrate?tok=q'</script>".to_string(),
    );
    let (stage, redirect) =
        next_home_page_request(&Vec::new(), &first.url, HomePageStage::Landing, &landing)
            .unwrap()
            .unwrap();
    assert_eq!(stage, HomePageStage::Redirected);
    assert_eq!(redirect.method, "GET");
    assert_eq!(redirect.url, "https://twitter.com/x/migrate?tok=q");
    assert!(redirect.form.is_none());

    let with_form = TwitterHomePage::new(
        "<form action=\"/x/migrate\"><input name=\"tok\" value=\"t\"></form>".to_string(),
    );
    let (stage, submit) =
        next_home_page_request(&Vec::new(), &redirect.url, HomePageStage::Redirected, &with_form)
            .unwrap()
            .unwrap();
    assert_eq!(stage, HomePageStage::Submitted);
    assert_eq!(submit.method, "POST");
    assert_eq!(submit.url, "https://twitter.com/x/migrate");
    assert_eq!(header(&submit.headers, "Referer"), Some("https://twitter.com/x/migrate?tok=q"));
    assert_eq!(header(&submit.headers, "Origin"), Some("https://twitter.com"));
    assert_eq!(
        submit.form,
        Some(MigrationForm {
            action: "/x/migrate".to_string(),
            method: "POST".to_string(),
            fields: vec![("tok".to_string(), "t".to_string())],
        })
    );

    let done = TwitterHomePage::new("<html>home</html>".to_string());
    assert!(next_home_page_request(&Vec::new(), &submit.url, HomePageStage::Submitted, &with_form)
        .unwrap()
        .is_none());
    assert!(next_home_page_request(&Vec::new(), &first.url, HomePageStage::Landing, &done)
        .unwrap()
        .is_none());
}
