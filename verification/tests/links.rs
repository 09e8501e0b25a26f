//! End-to-end behaviour of the link extractor, run against the real
//! `url` and `select` crates.

use web_crawler::errors::GetLinksError;
use web_crawler::extract::{links_from_fetch, FetchOutput, LinkExtractor};
use web_crawler::urls::{resolve, BaseUrl};

fn extract(base: &str, body: &str) -> Vec<String> {
    let base = BaseUrl::parse(base).expect("the base URL must parse");
    let extractor = LinkExtractor::new();
    extractor
        .get_links(&base, body)
        .iter()
        .map(|l| l.as_str().to_string())
        .collect()
}

#[test]
fn fragment_stripped_from_absolute_href() {
    let links = extract(
        "https://example.com/",
        r#"<a href="https://example.com/page#sec">x</a>"#,
    );
    assert_eq!(links, vec!["https://example.com/page".to_string()]);
}

#[test]
fn fragment_stripped_from_relative_href() {
    let links = extract("https://example.com/a/b", r#"<a href="c#frag">x</a>"#);
    assert_eq!(links, vec!["https://example.com/a/c".to_string()]);
    assert!(links.iter().all(|l| !l.contains('#')));
}

#[test]
fn fragment_only_href_resolves_to_base_without_fragment() {
    let links = extract("https://example.com/a/b", r##"<a href="#top">x</a>"##);
    assert_eq!(links, vec!["https://example.com/a/b".to_string()]);
}

#[test]
fn absolute_href_passes_through_whatever_the_base() {
    let body = r#"<a href="https://other.org/path?q=1">x</a>"#;
    let from_one = extract("https://example.com/", body);
    let from_other = extract("https://unrelated.net/deep/dir/", body);
    assert_eq!(from_one, vec!["https://other.org/path?q=1".to_string()]);
    assert_eq!(from_one, from_other);
}

#[test]
fn relative_hrefs_resolve_against_the_base() {
    let body = r#"<a href="c/d">1</a><a href="/x">2</a><a href="//other.com/y">3</a>"#;
    let links = extract("https://example.com/a/b", body);
    assert_eq!(
        links,
        vec![
            "https://example.com/a/c/d".to_string(),
            "https://example.com/x".to_string(),
            "https://other.com/y".to_string(),
        ]
    );
}

#[test]
fn order_preserved_and_duplicates_kept() {
    let body = r#"<a href="one">1</a><a href="two">2</a><a href="one">3</a>"#;
    let links = extract("https://example.com/", body);
    assert_eq!(
        links,
        vec![
            "https://example.com/one".to_string(),
            "https://example.com/two".to_string(),
            "https://example.com/one".to_string(),
        ]
    );
}

#[test]
fn malformed_hrefs_are_skipped_without_failing() {
    let body = r#"<a href="good1">1</a><a href="https://exa mple.com/x">bad domain</a><a href="http://">empty host</a><a href="good2">2</a>"#;
    let links = extract("https://example.com/", body);
    assert_eq!(
        links,
        vec![
            "https://example.com/good1".to_string(),
            "https://example.com/good2".to_string(),
        ]
    );
}

#[test]
fn href_with_invalid_scheme_is_treated_as_relative() {
    // "ht!tp" is no scheme ('!' may not appear in one), so per the URL
    // standard the whole href is a relative reference: it resolves as a
    // path against the base, with the space percent-encoded.
    let links = extract("https://example.com/", r#"<a href="ht!tp://bad uri">x</a>"#);
    assert_eq!(
        links,
        vec!["https://example.com/ht!tp://bad%20uri".to_string()]
    );
}

#[test]
fn failed_join_is_skipped_without_failing() {
    let links = extract("mailto:someone@example.com", r#"<a href="rel">x</a>"#);
    assert!(links.is_empty());
}

#[test]
fn document_without_anchors_yields_no_links() {
    let links = extract("https://example.com/", "<p>plain text, no anchors</p>");
    assert!(links.is_empty());
}

#[test]
fn anchors_without_href_yield_no_links() {
    let links = extract("https://example.com/", r#"<a name="x">y</a><a>z</a>"#);
    assert!(links.is_empty());
}

#[test]
fn empty_document_yields_no_links() {
    let links = extract("https://example.com/", "");
    assert!(links.is_empty());
}

#[test]
fn transport_failure_passes_through_untouched() {
    let outcome = Err(GetLinksError::SendRequest("connection refused".to_string()));
    match links_from_fetch(outcome) {
        Err(GetLinksError::SendRequest(m)) => assert_eq!(m, "connection refused"),
        other => panic!("expected the send failure back, got {:?}", other),
    }
}

#[test]
fn body_read_failure_passes_through_untouched() {
    let outcome = Err(GetLinksError::ResponseBody("invalid utf-8".to_string()));
    match links_from_fetch(outcome) {
        Err(GetLinksError::ResponseBody(m)) => assert_eq!(m, "invalid utf-8"),
        other => panic!("expected the body failure back, got {:?}", other),
    }
}

#[test]
fn redirect_changes_the_resolution_base() {
    let body = r#"<a href="c">x</a>"#.to_string();
    let requested = links_from_fetch(Ok(FetchOutput {
        base_url: "https://start.example/dir/".to_string(),
        status: 200,
        body: body.clone(),
    }))
    .expect("extraction succeeds");
    let redirected = links_from_fetch(Ok(FetchOutput {
        base_url: "https://final.example/sub/".to_string(),
        status: 200,
        body,
    }))
    .expect("extraction succeeds");
    assert_eq!(requested[0].as_str(), "https://start.example/dir/c");
    assert_eq!(redirected[0].as_str(), "https://final.example/sub/c");
    assert_ne!(requested[0].as_str(), redirected[0].as_str());
}

#[test]
fn invalid_effective_url_is_reported() {
    let outcome = Ok(FetchOutput {
        base_url: "not a url".to_string(),
        status: 200,
        body: String::new(),
    });
    match links_from_fetch(outcome) {
        Err(e) => {
            assert_eq!(e, GetLinksError::InvalidUrl("not a url".to_string()));
            assert_eq!(e.message(), "not a url");
        }
        Ok(_) => panic!("an unparseable effective URL must be rejected"),
    }
}

#[test]
fn successful_fetch_outcome_yields_links() {
    let outcome = Ok(FetchOutput {
        base_url: "https://example.com/a/".to_string(),
        status: 200,
        body: r#"<a href="one">1</a><a href="https://two.example/#f">2</a>"#.to_string(),
    });
    let links = links_from_fetch(outcome).expect("extraction succeeds");
    let texts: Vec<String> = links.iter().map(|l| l.as_str().to_string()).collect();
    assert_eq!(
        texts,
        vec![
            "https://example.com/a/one".to_string(),
            "https://two.example/".to_string(),
        ]
    );
}

#[test]
fn base_url_parse_accepts_only_absolute_urls() {
    assert!(BaseUrl::parse("not a url").is_none());
    assert!(BaseUrl::parse("c/d").is_none());
    let base = BaseUrl::parse("https://example.com/a/b").expect("absolute URL parses");
    assert_eq!(base.as_str(), "https://example.com/a/b");
}

#[test]
fn base_url_is_stored_in_normal_form() {
    let base = BaseUrl::parse("HTTPS://EXAMPLE.COM/Path").expect("absolute URL parses");
    assert_eq!(base.as_str(), "https://example.com/Path");
}

#[test]
fn resolve_handles_one_href_at_a_time() {
    let base = BaseUrl::parse("https://example.com/a/b").expect("absolute URL parses");
    let link = resolve(&base, "c/d").expect("a clean relative href resolves");
    assert_eq!(link.as_str(), "https://example.com/a/c/d");
    assert!(resolve(&base, "http://").is_none());
}
