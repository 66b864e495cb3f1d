use musings::pages::{render_not_found, LOREM_IPSUM};
use musings::routes::{
    eq_ignore_ascii_case, get_blog_post, handler_404, index, query_value, redirect, respond,
    route, text_eq, RedirectTarget, Route,
};

fn pairs(items: &[(&str, &str)]) -> Vec<(String, String)> {
    items.iter().map(|(k, v)| (k.to_string(), v.to_string())).collect()
}

#[test]
fn redirect_github() {
    let r = redirect(Some("github"));
    assert_eq!(r.status, 308);
    assert_eq!(r.redirect_to.as_deref(), Some("https://github.com/alixmacdonald10"));
    assert!(r.body.is_empty());
}

#[test]
fn redirect_linkedin() {
    let r = redirect(Some("linkedin"));
    assert_eq!(r.status, 308);
    assert_eq!(r.redirect_to.as_deref(), Some("https://linkedin.com/in/alixmac"));
}

#[test]
fn redirect_ignores_case() {
    assert_eq!(redirect(Some("GitHub")).redirect_to.as_deref(), Some("https://github.com/alixmacdonald10"));
    assert_eq!(redirect(Some("LinkedIn")).redirect_to.as_deref(), Some("https://linkedin.com/in/alixmac"));
    assert_eq!(redirect(Some("LINKEDIN")).status, 308);
}

#[test]
fn redirect_unknown_target_is_bad_request() {
    let r = redirect(Some("unknown"));
    assert_eq!(r.status, 400);
    assert!(r.redirect_to.is_none());
    assert_eq!(r.body, "missing or invalid query parameter: target");
    assert_eq!(redirect(Some("")).status, 400);
    assert_eq!(redirect(Some("githubx")).status, 400);
}

#[test]
fn redirect_missing_target_is_bad_request() {
    let r = redirect(None);
    assert_eq!(r.status, 400);
    assert!(r.redirect_to.is_none());
}

#[test]
fn target_parse_and_url() {
    assert_eq!(RedirectTarget::parse("gitHUB"), Some(RedirectTarget::Github));
    assert_eq!(RedirectTarget::parse("linkedin"), Some(RedirectTarget::LinkedIn));
    assert_eq!(RedirectTarget::parse("linked-in"), None);
    assert_eq!(RedirectTarget::Github.url(), "https://github.com/alixmacdonald10");
    assert_eq!(RedirectTarget::LinkedIn.url(), "https://linkedin.com/in/alixmac");
}

#[test]
fn case_insensitive_compare() {
    assert!(eq_ignore_ascii_case("AbC", "aBc"));
    assert!(!eq_ignore_ascii_case("abc", "abd"));
    assert!(!eq_ignore_ascii_case("abc", "abcd"));
    assert!(!eq_ignore_ascii_case("[", "{"));
    assert!(text_eq("/redirect", "/redirect"));
    assert!(!text_eq("/Redirect", "/redirect"));
}

#[test]
fn blog_post_with_valid_uuid() {
    let id = "67e55044-10b1-426f-9247-bb680e5fe0c8";
    let r = get_blog_post(Some(id), "now");
    assert_eq!(r.status, 200);
    assert!(r.redirect_to.is_none());
    assert!(r.body.contains(id));
    assert!(r.body.contains("POST RECEIVED ID: 67e55044-10b1-426f-9247-bb680e5fe0c8\nPOST LOADED AT: now\n\n\nLorem ipsum"));
    assert!(r.body.contains("<h2>Blog Post</h2>"));
}

#[test]
fn blog_post_shows_canonical_uuid_text() {
    let r = get_blog_post(Some("67E5504410B1426F9247BB680E5FE0C8"), "t");
    assert_eq!(r.status, 200);
    assert!(r.body.contains("67e55044-10b1-426f-9247-bb680e5fe0c8"));
}

#[test]
fn blog_post_escapes_load_time() {
    let r = get_blog_post(Some("67e55044-10b1-426f-9247-bb680e5fe0c8"), "<now & then>");
    assert!(r.body.contains("POST LOADED AT: &lt;now &amp; then&gt;"));
}

#[test]
fn blog_post_with_bad_uuid_is_bad_request() {
    let r = get_blog_post(Some("not-a-uuid"), "now");
    assert_eq!(r.status, 400);
    assert_eq!(r.body, "missing or invalid query parameter: id");
    assert_eq!(get_blog_post(None, "now").status, 400);
}

#[test]
fn not_found_page() {
    let r = handler_404();
    assert_eq!(r.status, 404);
    assert!(r.redirect_to.is_none());
    assert_eq!(r.body, render_not_found());
    assert!(r.body.contains("<h1>404</h1>"));
}

#[test]
fn unregistered_paths_answer_not_found() {
    for path in ["/nope", "/redirect/", "", "/blog-post/x", "/Index"] {
        for method in ["GET", "POST"] {
            let r = respond(method, path, &pairs(&[]), "now");
            assert_eq!(r.status, 404);
            assert_eq!(r.body, render_not_found());
        }
    }
}

#[test]
fn registered_paths_refuse_other_methods() {
    let r = respond("POST", "/", &pairs(&[]), "now");
    assert_eq!(r.status, 405);
    assert_eq!(respond("DELETE", "/redirect", &pairs(&[("target", "github")]), "now").status, 405);
    assert_eq!(respond("HEAD", "/", &pairs(&[]), "now").status, 200);
}

#[test]
fn respond_dispatches_by_path() {
    let r = respond("GET", "/redirect", &pairs(&[("target", "linkedin")]), "now");
    assert_eq!(r.status, 308);
    assert_eq!(r.redirect_to.as_deref(), Some("https://linkedin.com/in/alixmac"));
    let r = respond("GET", "/redirect", &pairs(&[]), "now");
    assert_eq!(r.status, 400);
    let r = respond("GET", "/blog-post", &pairs(&[("id", "67e55044-10b1-426f-9247-bb680e5fe0c8")]), "now");
    assert_eq!(r.status, 200);
    assert!(r.body.contains("67e55044-10b1-426f-9247-bb680e5fe0c8"));
    let r = respond("GET", "/blog-post", &pairs(&[("id", "not-a-uuid")]), "now");
    assert_eq!(r.status, 400);
    let r = respond("GET", "/", &pairs(&[("x", "y")]), "now");
    assert_eq!(r.status, 200);
}

#[test]
fn repeated_parameter_is_rejected() {
    let q = pairs(&[("target", "github"), ("target", "linkedin")]);
    assert_eq!(query_value(&q, "target"), None);
    assert_eq!(respond("GET", "/redirect", &q, "now").status, 400);
}

#[test]
fn query_value_lookup() {
    let q = pairs(&[("a", "1"), ("target", "github"), ("b", "2")]);
    assert_eq!(query_value(&q, "target"), Some("github".to_string()));
    assert_eq!(query_value(&q, "b"), Some("2".to_string()));
    assert_eq!(query_value(&q, "c"), None);
    assert_eq!(query_value(&pairs(&[]), "a"), None);
}

#[test]
fn route_table() {
    assert_eq!(route("/"), Route::Index);
    assert_eq!(route("/redirect"), Route::Redirect);
    assert_eq!(route("/blog-post"), Route::BlogPost);
    assert_eq!(route("/other"), Route::NotFound);
}

#[test]
fn index_is_idempotent() {
    let a = index();
    let b = index();
    assert_eq!(a.status, 200);
    assert_eq!(b.status, 200);
    assert_eq!(a.body, b.body);
    assert!(a.body.contains("<h2>Blog Post 1</h2>"));
    assert!(a.body.contains(LOREM_IPSUM));
    assert!(a.body.starts_with("<!DOCTYPE html>"));
    assert!(a.body.ends_with("</html>\n"));
}
