//! The route table and the handlers behind it, as functions from request
//! values to a reply.
use crate::pages::{
    blog_post_html, index_html, index_post, index_title, index_content, looked_up_content,
    looked_up_post, looked_up_title, not_found_html, render_blog_post, render_index,
    render_not_found, LOREM_IPSUM,
};
use crate::text::{
    contains, escape_html, lemma_escape_concat, lemma_uuid_text_plain, parse_uuid, uuid_parsed,
    uuid_text,
};
use vstd::prelude::*;

verus! {

/// The status of a successful page.
pub const STATUS_OK: u16 = 200;

/// The status of a permanent redirect.
pub const STATUS_PERMANENT_REDIRECT: u16 = 308;

/// The status of a request whose query is missing or malformed.
pub const STATUS_BAD_REQUEST: u16 = 400;

/// The status of a path that matches no route.
pub const STATUS_NOT_FOUND: u16 = 404;

/// The status of a registered path asked for with a method it does not serve.
pub const STATUS_METHOD_NOT_ALLOWED: u16 = 405;

/// What the server answers: a status, the page to redirect to (sent in the
/// `HX-Redirect` header), and a body.
#[derive(Clone, Debug)]
pub struct Reply {
    pub status: u16,
    pub redirect_to: Option<String>,
    pub body: String,
}

/// The places a visitor can be redirected to.
#[derive(Clone, Copy, Debug, PartialEq, Eq, Structural)]
pub enum RedirectTarget {
    Github,
    LinkedIn,
}

/// The fixed destination of each redirect target.
pub open spec fn target_url(t: RedirectTarget) -> Seq<char> {
    match t {
        RedirectTarget::Github => "https://github.com/alixmacdonald10"@,
        RedirectTarget::LinkedIn => "https://linkedin.com/in/alixmac"@,
    }
}

/// A character code with ASCII upper-case letters taken to lower case.
pub open spec fn ascii_fold(c: char) -> u32 {
    if 'A' <= c && c <= 'Z' {
        (c as u32 + 32) as u32
    } else {
        c as u32
    }
}

/// Whether two texts are equal when ASCII letters are compared without case.
pub open spec fn same_ignoring_ascii_case(a: Seq<char>, b: Seq<char>) -> bool {
    a.len() == b.len() && forall|i: int| 0 <= i < a.len() ==> ascii_fold(a[i]) == ascii_fold(b[i])
}

/// The redirect target a query value names, if any: `github` or `linkedin`,
/// in any case.
pub open spec fn target_named(s: Seq<char>) -> Option<RedirectTarget> {
    if same_ignoring_ascii_case(s, "github"@) {
        Some(RedirectTarget::Github)
    } else if same_ignoring_ascii_case(s, "linkedin"@) {
        Some(RedirectTarget::LinkedIn)
    } else {
        None
    }
}

/// The body sent with a rejected query parameter.
pub open spec fn bad_query_body(param: Seq<char>) -> Seq<char> {
    "missing or invalid query parameter: "@ + param
}

/// The answer owed to a redirect request whose `target` parameter is `target`.
pub open spec fn redirect_answer(target: Option<Seq<char>>, r: Reply) -> bool {
    match target {
        Some(s) if target_named(s) is Some => {
            &&& r.status == STATUS_PERMANENT_REDIRECT
            &&& r.redirect_to is Some
            &&& r.redirect_to->0@ == target_url(target_named(s)->0)
            &&& r.body@ == Seq::<char>::empty()
        },
        _ => {
            &&& r.status == STATUS_BAD_REQUEST
            &&& r.redirect_to is None
            &&& r.body@ == bad_query_body("target"@)
        },
    }
}

/// The answer owed to a request for the home page.
pub open spec fn index_answer(r: Reply) -> bool {
    &&& r.status == STATUS_OK
    &&& r.redirect_to is None
    &&& r.body@ == index_html(index_title(), index_content())
}

/// The answer owed to a request for a post whose `id` parameter is `id`,
/// loaded at the moment described by `loaded_at`.
pub open spec fn blog_post_answer(id: Option<Seq<char>>, loaded_at: Seq<char>, r: Reply) -> bool {
    match id {
        Some(s) if uuid_parsed(s) is Some => {
            &&& r.status == STATUS_OK
            &&& r.redirect_to is None
            &&& r.body@ == blog_post_html(
                looked_up_title(),
                looked_up_content(uuid_text(uuid_parsed(s)->0), loaded_at),
            )
        },
        _ => {
            &&& r.status == STATUS_BAD_REQUEST
            &&& r.redirect_to is None
            &&& r.body@ == bad_query_body("id"@)
        },
    }
}

/// The answer owed to a path that matches no route.
pub open spec fn not_found_answer(r: Reply) -> bool {
    &&& r.status == STATUS_NOT_FOUND
    &&& r.redirect_to is None
    &&& r.body@ == not_found_html()
}

/// Whether two texts are equal.
pub fn text_eq(a: &str, b: &str) -> (r: bool)
    ensures
        r == (a@ == b@),
{
    let n = a.unicode_len();
    if n != b.unicode_len() {
        return false;
    }
    let mut i: usize = 0;
    while i < n
        invariant
            n == a@.len(),
            n == b@.len(),
            i <= n,
            forall|j: int| 0 <= j < i ==> a@[j] == b@[j],
        decreases n - i,
    {
        if a.get_char(i) != b.get_char(i) {
            return false;
        }
        i = i + 1;
    }
    assert(a@ =~= b@);
    true
}

/// A character code with ASCII upper-case letters taken to lower case.
fn fold_char(c: char) -> (r: u32)
    ensures
        r == ascii_fold(c),
{
    if 'A' <= c && c <= 'Z' {
        c as u32 + 32
    } else {
        c as u32
    }
}

/// Whether two texts are equal when ASCII letters are compared without case.
pub fn eq_ignore_ascii_case(a: &str, b: &str) -> (r: bool)
    ensures
        r == same_ignoring_ascii_case(a@, b@),
{
    let n = a.unicode_len();
    if n != b.unicode_len() {
        return false;
    }
    let mut i: usize = 0;
    while i < n
        invariant
            n == a@.len(),
            n == b@.len(),
            i <= n,
            forall|j: int| 0 <= j < i ==> ascii_fold(a@[j]) == ascii_fold(b@[j]),
        decreases n - i,
    {
        if fold_char(a.get_char(i)) != fold_char(b.get_char(i)) {
            return false;
        }
        i = i + 1;
    }
    true
}

impl RedirectTarget {
    /// The target a query value names: `github` or `linkedin`, in any case.
    pub fn parse(s: &str) -> (r: Option<RedirectTarget>)
        ensures
            r == target_named(s@),
    {
        if eq_ignore_ascii_case(s, "github") {
            Some(RedirectTarget::Github)
        } else if eq_ignore_ascii_case(s, "linkedin") {
            Some(RedirectTarget::LinkedIn)
        } else {
            None
        }
    }

    /// The fixed destination of this target.
    pub fn url(&self) -> (r: String)
        ensures
            r@ == target_url(*self),
    {
        match self {
            RedirectTarget::Github => String::from_str("https://github.com/alixmacdonald10"),
            RedirectTarget::LinkedIn => String::from_str("https://linkedin.com/in/alixmac"),
        }
    }
}

/// A reply for a query parameter that is missing or malformed.
fn bad_query(param: &str) -> (r: Reply)
    ensures
        r.status == STATUS_BAD_REQUEST,
        r.redirect_to is None,
        r.body@ == bad_query_body(param@),
{
    let mut body = String::from_str("missing or invalid query parameter: ");
    body.append(param);
    Reply { status: STATUS_BAD_REQUEST, redirect_to: None, body }
}

/// The home page.
pub fn index() -> (r: Reply)
    ensures
        index_answer(r),
{
    let post = index_post();
    Reply { status: STATUS_OK, redirect_to: None, body: render_index(&post) }
}

/// Redirects to the destination that the `target` query value names, or
/// rejects the request where it names none.
pub fn redirect(target: Option<&str>) -> (r: Reply)
    ensures
        redirect_answer(
            match target {
                Some(s) => Some(s@),
                None => None,
            },
            r,
        ),
{
    match target {
        Some(s) => match RedirectTarget::parse(s) {
            Some(t) => Reply {
                status: STATUS_PERMANENT_REDIRECT,
                redirect_to: Some(t.url()),
                body: String::new(),
            },
            None => bad_query("target"),
        },
        None => bad_query("target"),
    }
}

/// The page of the post that the `id` query value names, loaded at the moment
/// described by `loaded_at`, or a rejection where `id` is no UUID.
pub fn get_blog_post(id: Option<&str>, loaded_at: &str) -> (r: Reply)
    ensures
        blog_post_answer(
            match id {
                Some(s) => Some(s@),
                None => None,
            },
            loaded_at@,
            r,
        ),
{
    match id {
        Some(s) => match parse_uuid(s) {
            Some(v) => {
                let post = looked_up_post(v, loaded_at);
                Reply { status: STATUS_OK, redirect_to: None, body: render_blog_post(&post) }
            },
            None => bad_query("id"),
        },
        None => bad_query("id"),
    }
}

/// The page for a path that matches no route.
pub fn handler_404() -> (r: Reply)
    ensures
        not_found_answer(r),
{
    Reply { status: STATUS_NOT_FOUND, redirect_to: None, body: render_not_found() }
}

/// The routes the server serves.
#[derive(Clone, Copy, Debug, PartialEq, Eq, Structural)]
pub enum Route {
    Index,
    Redirect,
    BlogPost,
    NotFound,
}

/// The route a request path matches; only the exact registered paths match.
pub open spec fn route_of(path: Seq<char>) -> Route {
    if path == "/"@ {
        Route::Index
    } else if path == "/redirect"@ {
        Route::Redirect
    } else if path == "/blog-post"@ {
        Route::BlogPost
    } else {
        Route::NotFound
    }
}

/// Whether a path is one of the registered routes.
pub open spec fn is_registered(path: Seq<char>) -> bool {
    path == "/"@ || path == "/redirect"@ || path == "/blog-post"@
}

/// Whether a method reads a page: `GET`, or `HEAD`, which is served as `GET`.
pub open spec fn is_read_method(method: Seq<char>) -> bool {
    method == "GET"@ || method == "HEAD"@
}

/// How many query pairs carry the key `key`.
pub open spec fn key_count(pairs: Seq<(String, String)>, key: Seq<char>) -> nat
    decreases pairs.len(),
{
    if pairs.len() == 0 {
        0
    } else {
        key_count(pairs.drop_last(), key) + if pairs.last().0@ == key {
            1nat
        } else {
            0nat
        }
    }
}

/// The value of the last query pair that carries the key `key`.
pub open spec fn last_value(pairs: Seq<(String, String)>, key: Seq<char>) -> Seq<char>
    decreases pairs.len(),
{
    if pairs.len() == 0 {
        Seq::empty()
    } else if pairs.last().0@ == key {
        pairs.last().1@
    } else {
        last_value(pairs.drop_last(), key)
    }
}

/// The value of a query parameter: present only where exactly one pair
/// carries its key (a repeated parameter is as good as a malformed one).
pub open spec fn query_param(pairs: Seq<(String, String)>, key: Seq<char>) -> Option<Seq<char>> {
    if key_count(pairs, key) == 1 {
        Some(last_value(pairs, key))
    } else {
        None
    }
}

/// The route a request path matches.
pub fn route(path: &str) -> (r: Route)
    ensures
        r == route_of(path@),
{
    if text_eq(path, "/") {
        Route::Index
    } else if text_eq(path, "/redirect") {
        Route::Redirect
    } else if text_eq(path, "/blog-post") {
        Route::BlogPost
    } else {
        Route::NotFound
    }
}

/// The value of the query parameter `key`, where exactly one pair carries it.
pub fn query_value(pairs: &Vec<(String, String)>, key: &str) -> (r: Option<String>)
    ensures
        match query_param(pairs@, key@) {
            Some(v) => r is Some && r->0@ == v,
            None => r is None,
        },
{
    let n = pairs.len();
    let mut count: usize = 0;
    let mut found: usize = 0;
    let mut i: usize = 0;
    while i < n
        invariant
            n == pairs@.len(),
            i <= n,
            count == key_count(pairs@.subrange(0, i as int), key@),
            count <= i,
            count > 0 ==> found < i && pairs@[found as int].1@ == last_value(
                pairs@.subrange(0, i as int),
                key@,
            ),
        decreases n - i,
    {
        proof {
            assert(pairs@.subrange(0, i + 1).drop_last() =~= pairs@.subrange(0, i as int));
            assert(pairs@.subrange(0, i + 1).last() == pairs@[i as int]);
        }
        if text_eq(pairs[i].0.as_str(), key) {
            count = count + 1;
            found = i;
        }
        i = i + 1;
    }
    assert(pairs@.subrange(0, n as int) =~= pairs@);
    if count == 1 {
        Some(pairs[found].1.clone())
    } else {
        None
    }
}

/// Whether a method reads a page.
pub fn is_read(method: &str) -> (r: bool)
    ensures
        r == is_read_method(method@),
{
    text_eq(method, "GET") || text_eq(method, "HEAD")
}

/// A reply for a registered path asked for with a method it does not serve.
fn method_not_allowed() -> (r: Reply)
    ensures
        r.status == STATUS_METHOD_NOT_ALLOWED,
        r.redirect_to is None,
        r.body@ == Seq::<char>::empty(),
{
    Reply { status: STATUS_METHOD_NOT_ALLOWED, redirect_to: None, body: String::new() }
}

/// Dispatches a request, given by its method, path and query pairs, to the
/// route it matches; `loaded_at` describes the moment of handling.
pub fn respond(method: &str, path: &str, query: &Vec<(String, String)>, loaded_at: &str) -> (r:
    Reply)
    ensures
        route_of(path@) == Route::NotFound ==> not_found_answer(r),
        route_of(path@) != Route::NotFound && !is_read_method(method@) ==> r.status
            == STATUS_METHOD_NOT_ALLOWED && r.redirect_to is None,
        route_of(path@) == Route::Index && is_read_method(method@) ==> index_answer(r),
        route_of(path@) == Route::Redirect && is_read_method(method@) ==> redirect_answer(
            query_param(query@, "target"@),
            r,
        ),
        route_of(path@) == Route::BlogPost && is_read_method(method@) ==> blog_post_answer(
            query_param(query@, "id"@),
            loaded_at@,
            r,
        ),
{
    let which = route(path);
    if which == Route::NotFound {
        return handler_404();
    }
    if !is_read(method) {
        return method_not_allowed();
    }
    match which {
        Route::Index => index(),
        Route::Redirect => {
            let target = query_value(query, "target");
            match target {
                Some(t) => redirect(Some(t.as_str())),
                None => redirect(None),
            }
        },
        Route::BlogPost => {
            let id = query_value(query, "id");
            match id {
                Some(v) => get_blog_post(Some(v.as_str()), loaded_at),
                None => get_blog_post(None, loaded_at),
            }
        },
        Route::NotFound => handler_404(),
    }
}

/// A path matches no route exactly when it is not one of the registered ones,
/// so every other path is answered with the not-found page.
pub proof fn unregistered_paths_not_found(path: Seq<char>)
    ensures
        !is_registered(path) <==> route_of(path) == Route::NotFound,
{
}

/// The home page is the same on every request: two answers to it agree in
/// status, redirect and body.
pub proof fn index_idempotent(first: Reply, second: Reply)
    requires
        index_answer(first),
        index_answer(second),
    ensures
        first.status == STATUS_OK,
        second.status == STATUS_OK,
        first.redirect_to is None,
        second.redirect_to is None,
        first.body@ == second.body@,
{
}

/// A post page asked for with a valid UUID succeeds and shows that UUID's
/// hyphenated text.
pub proof fn blog_post_shows_id(id: Seq<char>, loaded_at: Seq<char>, r: Reply)
    requires
        uuid_parsed(id) is Some,
        blog_post_answer(Some(id), loaded_at, r),
    ensures
        r.status == STATUS_OK,
        contains(r.body@, uuid_text(uuid_parsed(id)->0)),
{
    let u = uuid_text(uuid_parsed(id)->0);
    let before = "\nPOST RECEIVED ID: "@;
    let after = "\nPOST LOADED AT: "@ + loaded_at + "\n\n\n"@ + LOREM_IPSUM@;
    let content = looked_up_content(u, loaded_at);
    assert(content =~= before + u + after);
    lemma_escape_concat(before, u);
    lemma_escape_concat(before + u, after);
    lemma_uuid_text_plain(uuid_parsed(id)->0);
    let head = "<!DOCTYPE html>\n<html lang=\"en\">\n<head>\n<meta charset=\"utf-8\">\n<title>"@
        + "Musings - Post"@ + "</title>\n</head>\n<body>\n<main>\n"@ + "<article>\n<h2>"@
        + escape_html(looked_up_title()) + "</h2>\n<div class=\"post-content\">"@
        + escape_html(before);
    let rest = escape_html(after) + "</div>\n</article>\n"@ + "</main>\n</body>\n</html>\n"@;
    assert(r.body@ =~= head + u + rest);
    assert((head + u + rest).subrange(head.len() as int, (head.len() + u.len()) as int) =~= u);
}

} // verus!
