use amagi::error::AppError;
use amagi::twitter::html::{
    decode_html_entities, ensure_trailing_slash, extract_attribute_value, extract_chunk_hash_after,
    extract_chunk_id_before, extract_input_fields, extract_js_string_after,
    extract_key_byte_indices, extract_migration_form, extract_migration_redirect_url,
    extract_path_d_values, extract_tag_around, is_word, resolve_ondemand_file_url_from_runtime,
    MigrationForm, TwitterHomePage,
};

fn upstream(message: &str) -> AppError {
    AppError::UpstreamResponse { status: None, message: message.to_string() }
}

#[test]
fn entities_are_decoded_in_order() {
    assert_eq!(decode_html_entities("a&amp;b&quot;c&#39;d"), "a&b\"c'd");
    // `&amp;quot;` becomes `&quot;` first and then a quote.
    assert_eq!(decode_html_entities("&amp;quot;"), "\"");
    assert_eq!(decode_html_entities("plain"), "plain");
}

#[test]
fn word_bytes() {
    assert!(is_word(b'a'));
    assert!(is_word(b'Z'));
    assert!(is_word(b'7'));
    assert!(is_word(b'_'));
    assert!(!is_word(b'-'));
    assert!(!is_word(b' '));
}

#[test]
fn trailing_slash_is_added_once() {
    assert_eq!(ensure_trailing_slash("https://a.b/c"), "https://a.b/c/");
    assert_eq!(ensure_trailing_slash("https://a.b/c/"), "https://a.b/c/");
    let once = ensure_trailing_slash("x");
    assert_eq!(ensure_trailing_slash(&once), once);
}

#[test]
fn tag_around_an_anchor() {
    let html = "<html><meta name=\"twitter-site-verification\" content=\"KEY\"/></html>";
    assert_eq!(
        extract_tag_around(html, "twitter-site-verification"),
        Some("<meta name=\"twitter-site-verification\" content=\"KEY\"/>".to_string())
    );
    assert_eq!(extract_tag_around(html, "missing"), None);
    assert_eq!(extract_tag_around("no tag twitter-site-verification>", "twitter-site-verification"), None);
}

#[test]
fn attribute_values() {
    assert_eq!(extract_attribute_value("<a href=\"x&amp;y\">", "href"), Some("x&y".to_string()));
    assert_eq!(extract_attribute_value("<a href='q'>", "href"), Some("q".to_string()));
    assert_eq!(extract_attribute_value("<a href=bare>", "href"), Some("bare".to_string()));
    assert_eq!(extract_attribute_value("<a href=bare/>", "href"), Some("bare".to_string()));
    // A name that only ends in the wanted name is skipped.
    assert_eq!(
        extract_attribute_value("<a data-href=\"no\" href=\"yes\">", "href"),
        Some("yes".to_string())
    );
    assert_eq!(extract_attribute_value("<a href=\"open>", "href"), None);
    assert_eq!(extract_attribute_value("<a>", "href"), None);
    assert_eq!(extract_attribute_value("d=", "d"), None);
    assert_eq!(extract_attribute_value("d=x", "d"), Some("x".to_string()));
}

#[test]
fn path_d_values() {
    let svg = "<svg><path d=\"M0\"/><path fill=\"none\"/><path d='M1 2'></svg>";
    assert_eq!(extract_path_d_values(svg), vec!["M0".to_string(), "M1 2".to_string()]);
    assert!(extract_path_d_values("<path d=\"x\"").is_empty());
}

#[test]
fn input_fields() {
    let body = "<input name=\"tok\" value=\"abc\"><input name=\"x\"><input value=\"y\" name=\"z\">";
    assert_eq!(
        extract_input_fields(body),
        vec![("tok".to_string(), "abc".to_string()), ("z".to_string(), "y".to_string())]
    );
}

#[test]
fn migration_form_by_name() {
    let html = "<form action=\"/other\"></form><form name=\"f\" method=\"GET\"><input name=\"a\" value=\"1\"></form>";
    assert_eq!(
        extract_migration_form(html),
        Some(MigrationForm {
            action: "https://x.com/x/migrate".to_string(),
            method: "GET".to_string(),
            fields: vec![("a".to_string(), "1".to_string())],
        })
    );
}

#[test]
fn migration_form_by_action() {
    let html = "<form action=\"https://twitter.com/x/migrate\"><input name=\"tok\" value=\"t\"></form>";
    assert_eq!(
        extract_migration_form(html),
        Some(MigrationForm {
            action: "https://twitter.com/x/migrate".to_string(),
            method: "POST".to_string(),
            fields: vec![("tok".to_string(), "t".to_string())],
        })
    );
    assert_eq!(extract_migration_form("<form name=\"f\">no close"), None);
    assert_eq!(extract_migration_form("<form name=\"g\"></form>"), None);
}

#[test]
fn migration_redirect() {
    let html = "<a href=\"http://other.com\">x</a> <meta content=\"0; url=https://x.com/x/migrate?tok=abc&amp;d=1\">";
    assert_eq!(
        extract_migration_redirect_url(html),
        Some("https://x.com/x/migrate?tok=abc&d=1".to_string())
    );
    assert_eq!(extract_migration_redirect_url("https://x.com/home"), None);
}

#[test]
fn js_string_after_a_prefix() {
    assert_eq!(
        extract_js_string_after("a;g.p=  \"https://cdn/\";", "g.p="),
        Some("https://cdn/".to_string())
    );
    assert_eq!(extract_js_string_after("g.p='x'", "g.p="), Some("x".to_string()));
    assert_eq!(extract_js_string_after("g.p=x", "g.p="), None);
    assert_eq!(extract_js_string_after("g.p=\"open", "g.p="), None);
    assert_eq!(extract_js_string_after("nothing", "g.p="), None);
}

#[test]
fn chunk_id_and_hash() {
    let runtime = "{20113:\"ondemand.s\"}[20113:\"abc123\"]";
    let position = runtime.find("ondemand.s").unwrap();
    assert_eq!(extract_chunk_id_before(runtime, position), Some("20113".to_string()));
    assert_eq!(
        extract_chunk_hash_after(runtime, position, "20113"),
        Some("abc123".to_string())
    );
    assert_eq!(extract_chunk_id_before("x:ondemand.s", 2), None);
    assert_eq!(extract_chunk_hash_after("ondemand.s 7:'h'", 0, "7"), Some("h".to_string()));
    assert_eq!(extract_chunk_hash_after("ondemand.s", 0, "7"), None);
}

#[test]
fn ondemand_url_from_runtime() {
    let runtime = "g.p=\"https://cdn.example/web\";e={20113:\"ondemand.s\"};h={20113:\"abc\"}";
    assert_eq!(
        resolve_ondemand_file_url_from_runtime(runtime),
        Some("https://cdn.example/web/ondemand.s.abca.js".to_string())
    );
    let runtime = "e={5:\"ondemand.s\"};h={5:'f00'}";
    assert_eq!(
        resolve_ondemand_file_url_from_runtime(runtime),
        Some("https://abs.twimg.com/responsive-web/client-web/ondemand.s.f00a.js".to_string())
    );
    assert_eq!(resolve_ondemand_file_url_from_runtime("ondemand.s only"), None);
}

#[test]
fn home_page_site_key() {
    let page = TwitterHomePage::new(
        "<meta name=\"twitter-site-verification\" content=\"S1TE\">".to_string(),
    );
    assert_eq!(page.site_verification_key(), Ok("S1TE".to_string()));
    let page = TwitterHomePage::new("<html></html>".to_string());
    assert_eq!(
        page.site_verification_key(),
        Err(upstream("twitter homepage did not contain `twitter-site-verification`"))
    );
    let page = TwitterHomePage::new("<meta name=\"twitter-site-verification\">".to_string());
    assert_eq!(
        page.site_verification_key(),
        Err(upstream(
            "twitter homepage `twitter-site-verification` tag did not contain `content`"
        ))
    );
}

#[test]
fn home_page_ondemand_url() {
    let page = TwitterHomePage::new(
        "<script>var a=1;</script><script src=x>e={7:\"ondemand.s\"};h={7:\"zz\"}</script>"
            .to_string(),
    );
    assert_eq!(
        page.resolve_ondemand_file_url(),
        Ok("https://abs.twimg.com/responsive-web/client-web/ondemand.s.zza.js".to_string())
    );
    let page = TwitterHomePage::new("<p>nothing</p>".to_string());
    assert_eq!(
        page.resolve_ondemand_file_url(),
        Err(upstream("twitter homepage runtime did not expose the current ondemand chunk url"))
    );
}

fn frame_svg(n: usize) -> String {
    format!(
        "<svg id=\"loading-x-anim-{n}\"><path d=\"first\"/><path d=\"frame{n}\"/></svg>"
    )
}

#[test]
fn home_page_frames() {
    let html: String = (0..4).map(frame_svg).collect();
    let page = TwitterHomePage::new(html);
    assert_eq!(
        page.frame_paths(),
        Ok(vec![
            "frame0".to_string(),
            "frame1".to_string(),
            "frame2".to_string(),
            "frame3".to_string()
        ])
    );
    let html: String = (0..3).map(frame_svg).collect();
    let page = TwitterHomePage::new(html);
    assert_eq!(
        page.frame_paths(),
        Err(upstream("twitter homepage did not expose 4 loading animation frames, got 3"))
    );
}

#[test]
fn home_page_migration() {
    let page = TwitterHomePage::new(
        "<script>location='https://twitter.com/x/migrate?tok=q'</script>".to_string(),
    );
    assert_eq!(
        page.migration_redirect_url(),
        Some("https://twitter.com/x/migrate?tok=q".to_string())
    );
    assert_eq!(page.migration_form(), None);
}

#[test]
fn key_byte_indices() {
    let chunk = "x=(a[5],16);y=(b[12], 16 );z=(c[3],15)";
    assert_eq!(extract_key_byte_indices(chunk), Ok((5, vec![12])));
    assert_eq!(
        extract_key_byte_indices("(a[1],15)"),
        Err(upstream("twitter ondemand chunk did not expose key byte indices"))
    );
}
