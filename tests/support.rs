use musings::config::{
    handle_startup_commands, level_label, log_level_for, tracing_directive, LogLevel,
    RATE_LIMIT_BURST, RATE_LIMIT_REPLENISH_SECONDS,
};
use musings::pages::{render_blog_post, render_index, BlogPost};
use musings::request_id::{assign_request_id, REQUEST_ID_HEADER};
use musings::routes::get_blog_post;
use musings::text::decimal_string;

#[test]
fn verbosity_levels() {
    assert_eq!(log_level_for(0), LogLevel::Info);
    assert_eq!(log_level_for(1), LogLevel::Debug);
    assert_eq!(log_level_for(2), LogLevel::Trace);
    assert_eq!(log_level_for(255), LogLevel::Trace);
}

#[test]
fn startup_settings() {
    let c = handle_startup_commands("0.0.0.0".to_string(), 3000, 0);
    assert_eq!(c.address, "0.0.0.0");
    assert_eq!(c.port, 3000);
    assert_eq!(c.log_level, LogLevel::Info);
    assert_eq!(c.port_text(), "3000");
    assert_eq!(c.bind_address(), "0.0.0.0:3000");
    let c = handle_startup_commands("127.0.0.1".to_string(), 8080, 3);
    assert_eq!(c.bind_address(), "127.0.0.1:8080");
    assert_eq!(c.log_level, LogLevel::Trace);
}

#[test]
fn decimal_text_of_ports() {
    assert_eq!(decimal_string(0), "0");
    assert_eq!(decimal_string(7), "7");
    assert_eq!(decimal_string(10), "10");
    assert_eq!(decimal_string(3000), "3000");
    assert_eq!(decimal_string(u32::MAX), "4294967295");
}

#[test]
fn level_labels() {
    assert_eq!(level_label(LogLevel::Info), "INFO");
    assert_eq!(level_label(LogLevel::Debug), "DEBUG");
    assert_eq!(level_label(LogLevel::Trace), "TRACE");
}

#[test]
fn filter_directive_text() {
    assert_eq!(
        tracing_directive("amacerels-musings", LogLevel::Debug),
        "amacerels_musings=DEBUG,tower_http=debug,axum::rejection=trace"
    );
    assert_eq!(
        tracing_directive("", LogLevel::Info),
        "=INFO,tower_http=debug,axum::rejection=trace"
    );
}

#[test]
fn request_id_is_kept() {
    assert_eq!(REQUEST_ID_HEADER, "x-request-id");
    assert_eq!(assign_request_id(Some("abc-123".to_string())), "abc-123");
    assert_eq!(assign_request_id(Some(String::new())), "");
}

#[test]
fn request_id_is_generated() {
    let a = assign_request_id(None);
    let b = assign_request_id(None);
    assert_eq!(a.len(), 36);
    for (i, c) in a.chars().enumerate() {
        if i == 8 || i == 13 || i == 18 || i == 23 {
            assert_eq!(c, '-');
        } else {
            assert!(c.is_ascii_digit() || ('a'..='f').contains(&c));
        }
    }
    assert_ne!(a, b);
    assert_eq!(a.as_bytes()[14], b'4');
    assert_eq!(get_blog_post(Some(&a), "now").status, 200);
}

#[test]
fn uuid_text_form_in_pages() {
    let r = get_blog_post(Some("00000000000000000000000000000000"), "t");
    assert!(r.body.contains("POST RECEIVED ID: 00000000-0000-0000-0000-000000000000\n"));
    let r = get_blog_post(Some("{67e55044-10b1-426f-9247-bb680e5fe0c8}"), "t");
    assert!(r.body.contains("POST RECEIVED ID: 67e55044-10b1-426f-9247-bb680e5fe0c8\n"));
    assert_eq!(get_blog_post(Some(""), "t").status, 400);
    assert_eq!(get_blog_post(Some("67e55044-10b1-426f-9247-bb680e5fe0c"), "t").status, 400);
}

#[test]
fn pages_escape_post_fields() {
    let post = BlogPost { id: 1, title: "A & B".to_string(), content: "<p>".to_string() };
    let page = render_index(&post);
    assert!(page.contains("<h2>A &amp; B</h2>"));
    assert!(page.contains("&lt;p&gt;"));
    let post = BlogPost { id: 2, title: "<a href='x'>\"".to_string(), content: "plain text".to_string() };
    let page = render_index(&post);
    assert!(page.contains("<h2>&lt;a href=&#x27;x&#x27;&gt;&quot;</h2>"));
    assert!(page.contains(">plain text</div>"));
    let page = render_blog_post(&post);
    assert!(page.contains("<title>Musings - Post</title>"));
}

#[test]
fn rate_limit_allows_burst_then_refuses() {
    let config = tower_governor::governor::GovernorConfigBuilder::default()
        .per_second(RATE_LIMIT_REPLENISH_SECONDS)
        .burst_size(RATE_LIMIT_BURST)
        .finish()
        .unwrap();
    let key = "10.0.0.1".parse().unwrap();
    for _ in 0..5 {
        assert!(config.limiter().check_key(&key).is_ok());
    }
    assert!(config.limiter().check_key(&key).is_err());
    let other = "10.0.0.2".parse().unwrap();
    assert!(config.limiter().check_key(&other).is_ok());
}
