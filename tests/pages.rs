use blog_server::front_matter::document_from_yaml;
use blog_server::content::compose_post_body;
use blog_server::models::FrontMatter;
use blog_server::content::{build_snapshot, post_entry, render_home, AppState, ContentSnapshot, HomeSource};
use blog_server::front_matter::parse_front_matter;
use blog_server::models::Post;
use blog_server::template::{render_with_layout, replace_placeholder, HOT_RELOAD_SCRIPT};

fn state(layout: &str, home: &str, not_found: &str, posts: Vec<Post>, dev: bool) -> AppState {
    AppState {
        snapshot: ContentSnapshot {
            banner_html: "<header>B</header>".to_string(),
            layout_html: layout.to_string(),
            home_html: home.to_string(),
            not_found_html: not_found.to_string(),
            posts,
        },
        is_development: dev,
    }
}

#[test]
fn homepage_lists_posts_in_order() {
    let posts = vec![Post::new("A", "a"), Post::new("B", "b")];
    let st = state("<body>{{ content }}<ul>{{ posts }}</ul></body>", "<p>Hi</p>", "", posts, false);
    let page = st.homepage();
    assert!(page.contains("<p>Hi</p>"));
    assert!(page.contains(
        "<li><a href=\"/posts/a\" class=\"text-blue no-underline\">A</a></li><li><a href=\"/posts/b\" class=\"text-blue no-underline\">B</a></li>"
    ));
    assert_eq!(page, "<body><p>Hi</p><ul><li><a href=\"/posts/a\" class=\"text-blue no-underline\">A</a></li><li><a href=\"/posts/b\" class=\"text-blue no-underline\">B</a></li></ul></body>");
}

#[test]
fn post_page_shows_title_date_and_body() {
    let st = state("<body>{{ content }}</body>", "", "", vec![], false);
    let file = "---\ntitle: Hello\ndate: 2025-01-01\nslug: hello\n---\n# H\n";
    let page = st.post_page("hello", Some(file));
    assert!(page.contains("<h1>Hello</h1>"));
    assert!(page.contains("<p style=\"font-size: smaller; color: #888;\">2025-01-01</p>"));
    assert!(page.contains("<h1>H</h1>"));
}

#[test]
fn missing_post_renders_not_found() {
    let st = state("<body>{{ content }}</body>", "", "Missing: {{slug}}", vec![], false);
    let page = st.post_page("ghost", None);
    assert!(page.contains("Missing: ghost"));
}

#[test]
fn post_without_front_matter_gets_error_heading() {
    let st = state("{{ content }}", "", "", vec![], false);
    let page = st.post_page("x", Some("just *text*"));
    assert_eq!(page, "<h1>Error: No Front Matter</h1><p>just <em>text</em></p>\n");
}

#[test]
fn malformed_front_matter_gets_sentinel() {
    let doc = parse_front_matter("---\ntitle: Only\n---\nbody");
    let fm = doc.front_matter.unwrap();
    assert_eq!((fm.title.as_str(), fm.date.as_str(), fm.slug.as_str()), ("Error", "Error", "Error"));
    assert_eq!(doc.body, "body");
    let bad = parse_front_matter("---\ntitle: [unclosed\n---\nbody");
    let fm = bad.front_matter.unwrap();
    assert_eq!(fm.title, "Error");
    assert_eq!(bad.body, "");
}

#[test]
fn front_matter_is_split_from_body() {
    let doc = parse_front_matter("---\ntitle: T\ndate: D\nslug: s\ntags: [a]\n---\nBody text");
    let fm = doc.front_matter.unwrap();
    assert_eq!((fm.title.as_str(), fm.date.as_str(), fm.slug.as_str()), ("T", "D", "s"));
    assert_eq!(doc.body, "Body text");
    let none = parse_front_matter("no block here");
    assert!(none.front_matter.is_none());
    assert_eq!(none.body, "no block here");
}

#[test]
fn index_entries_from_files() {
    let p = post_entry("---\ntitle: T\ndate: D\nslug: s\n---\nx");
    assert_eq!((p.title.as_str(), p.slug.as_str()), ("T", "s"));
    let q = post_entry("plain");
    assert_eq!((q.title.as_str(), q.slug.as_str()), ("Error", "error"));
}

#[test]
fn html_and_markdown_home_both_render() {
    let html = render_home(&HomeSource::Html("<p>Hi</p>".to_string()));
    assert_eq!(html, "<p>Hi</p>");
    let md = render_home(&HomeSource::Markdown("---\ntitle: Home\n---\nHi".to_string()));
    assert_eq!(md, "<p>Hi</p>\n");
    for home in [HomeSource::Html("<p>Hi</p>".to_string()), HomeSource::Markdown("Hi\n\n".to_string())] {
        let snap = build_snapshot("b".to_string(), "<body>{{ content }}</body>".to_string(), &home, "n".to_string(), &vec![]);
        let st = AppState { snapshot: snap, is_development: false };
        assert!(st.homepage().contains("<p>Hi</p>"));
    }
}

#[test]
fn snapshot_keeps_directory_order() {
    let files = vec![
        "---\ntitle: Two\ndate: d\nslug: two\n---\n".to_string(),
        "---\ntitle: One\ndate: d\nslug: one\n---\n".to_string(),
    ];
    let snap = build_snapshot("b".to_string(), "l".to_string(), &HomeSource::Html("h".to_string()), "n".to_string(), &files);
    assert_eq!(snap.posts.len(), 2);
    assert_eq!(snap.posts[0].slug, "two");
    assert_eq!(snap.posts[1].slug, "one");
}

#[test]
fn install_replaces_whole_snapshot_or_nothing() {
    let mut st = state("old layout", "old home", "old nf", vec![Post::new("O", "o")], true);
    st.install(None);
    assert_eq!(st.snapshot.layout_html, "old layout");
    assert_eq!(st.snapshot.posts.len(), 1);
    let fresh = build_snapshot("nb".to_string(), "new layout".to_string(), &HomeSource::Html("nh".to_string()), "nn".to_string(), &vec!["---\ntitle: New\ndate: d\nslug: new\n---\n".to_string()]);
    st.install(Some(fresh));
    assert_eq!(st.snapshot.layout_html, "new layout");
    assert_eq!(st.snapshot.home_html, "nh");
    assert_eq!(st.snapshot.posts[0].slug, "new");
    assert!(st.is_development);
}

#[test]
fn development_pages_carry_reload_script() {
    let page = render_with_layout("<body>{{ banner }}</body>", "B", "", &vec![], true);
    assert_eq!(page, format!("<body>B{}</body>", HOT_RELOAD_SCRIPT));
    let plain = render_with_layout("<body>{{ banner }}</body>", "B", "", &vec![], false);
    assert_eq!(plain, "<body>B</body>");
}

#[test]
fn substitution_is_literal_and_idempotent() {
    assert_eq!(replace_placeholder("a {{x}} b {{x}}", "{{x}}", "<i>"), "a <i> b <i>");
    let once = replace_placeholder("[{{ posts }}]", "{{ posts }}", "list");
    assert_eq!(replace_placeholder(&once, "{{ posts }}", "list"), once);
    assert_eq!(replace_placeholder("abc", "", "z"), "abc");
    assert_eq!(replace_placeholder("{{ unknown }}", "{{ posts }}", "z"), "{{ unknown }}");
}

#[test]
fn new_post_appears_after_reload() {
    let mut st = state("<ul>{{ posts }}</ul>", "", "", vec![], true);
    let fresh = build_snapshot("".to_string(), "<ul>{{ posts }}</ul>".to_string(), &HomeSource::Html("".to_string()), "".to_string(), &vec!["---\ntitle: new\ndate: d\nslug: new\n---\n".to_string()]);
    st.install(Some(fresh));
    assert!(st.homepage().contains("/posts/new"));
}

#[test]
fn document_from_yaml_outcomes() {
    let entries = vec![
        ("title".to_string(), Some("T".to_string())),
        ("date".to_string(), Some("D".to_string())),
        ("slug".to_string(), Some("s".to_string())),
        ("count".to_string(), None),
    ];
    let doc = document_from_yaml(Some((Some(entries), "body".to_string())));
    let fm = doc.front_matter.unwrap();
    assert_eq!((fm.title.as_str(), fm.date.as_str(), fm.slug.as_str()), ("T", "D", "s"));
    assert_eq!(doc.body, "body");

    let missing = vec![("title".to_string(), Some("T".to_string())), ("date".to_string(), None)];
    let doc = document_from_yaml(Some((Some(missing), "b".to_string())));
    assert_eq!(doc.front_matter.unwrap().slug, "Error");

    let doc = document_from_yaml(Some((None, "b".to_string())));
    assert!(doc.front_matter.is_none());
    assert_eq!(doc.body, "b");

    let doc = document_from_yaml(None);
    assert_eq!(doc.front_matter.unwrap().date, "Error");
    assert_eq!(doc.body, "");
}

#[test]
fn compose_post_body_forms() {
    let fm = Some(FrontMatter::new("Hello", "2025-01-01", "hello"));
    assert_eq!(
        compose_post_body(&fm, "<h1>H</h1>\n"),
        "<h1>Hello</h1><p style=\"font-size: smaller; color: #888;\">2025-01-01</p><h1>H</h1>\n"
    );
    assert_eq!(compose_post_body(&None, "<p>x</p>"), "<h1>Error: No Front Matter</h1><p>x</p>");
}
