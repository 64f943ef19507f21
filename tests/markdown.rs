use blog_server::markdown::math_html_from;
use blog_server::markdown::markdown_options;
use blog_server::markdown::{
    delimiter_at, fallback_math_html, normalize_latex_delimiters, render_markdown_to_html,
    render_math_html,
};

#[test]
fn renders_math_with_latex_paren_and_bracket_delimiters() {
    let input = "\\(x^2\\) and \\[y^2\\]";
    let output = render_markdown_to_html(input);
    assert!(output.contains("katex"));
}

#[test]
fn renders_multiline_paren_delimited_math() {
    let input = "Start \\( \\frac{2.24T}{2.08T}\n\\approx 1.077 \\) end";
    let output = render_markdown_to_html(input);
    assert!(output.contains("katex"));
}

#[test]
fn inline_paren_math_renders_with_katex() {
    let output = render_markdown_to_html("\\(x^2\\)");
    assert!(output.contains("katex") || output.contains("<span class=\"math math-inline\">x^2</span>"));
}

#[test]
fn normalizes_paren_and_bracket_forms() {
    assert_eq!(normalize_latex_delimiters("\\(x^2\\) and \\[y^2\\]"), "$x^2$ and $$y^2$$");
}

#[test]
fn newline_inside_paren_math_becomes_display_math() {
    assert_eq!(normalize_latex_delimiters("\\( a\nb \\)"), "$$ a\nb $$");
    let output = render_markdown_to_html("\\( a\nb \\)");
    assert!(output.contains("katex-display"));
}

#[test]
fn unclosed_paren_passes_through_literally() {
    assert_eq!(normalize_latex_delimiters("a \\(x + y"), "a \\(x + y");
    assert_eq!(normalize_latex_delimiters("\\(x \\[y\\]"), "\\(x $$y$$");
}

#[test]
fn normalization_is_idempotent_after_rewrite() {
    let once = normalize_latex_delimiters("p \\(a\\) q \\[b\\] r");
    assert_eq!(once, "p $a$ q $$b$$ r");
    assert_eq!(normalize_latex_delimiters(&once), once);
}

#[test]
fn normalization_keeps_multibyte_text() {
    assert_eq!(normalize_latex_delimiters("é \\(α\\) ü"), "é $α$ ü");
    assert_eq!(normalize_latex_delimiters(""), "");
}

#[test]
fn earliest_close_is_taken() {
    assert_eq!(normalize_latex_delimiters("\\(a\\) b \\)"), "$a$ b \\)");
}

#[test]
fn delimiter_kinds() {
    let s: Vec<char> = "x\\(\\[\\y".chars().collect();
    assert_eq!(delimiter_at(&s, 0), None);
    assert_eq!(delimiter_at(&s, 1), Some((')', false)));
    assert_eq!(delimiter_at(&s, 3), Some((']', true)));
    assert_eq!(delimiter_at(&s, 5), None);
    assert_eq!(delimiter_at(&s, 6), None);
}

#[test]
fn fallback_spans() {
    assert_eq!(fallback_math_html("x^2", false), "<span class=\"math math-inline\">x^2</span>");
    assert_eq!(fallback_math_html("y", true), "<span class=\"math math-display\">y</span>");
}

#[test]
fn math_renders_through_katex() {
    let html = render_math_html("x^2", false);
    assert!(html.contains("katex"));
    assert_ne!(html, "x^2");
    let display = render_math_html("x^2", true);
    assert!(display.contains("katex-display"));
}

#[test]
fn markdown_heading_and_strikethrough() {
    assert_eq!(render_markdown_to_html("# H"), "<h1>H</h1>\n");
    assert!(render_markdown_to_html("~~gone~~").contains("<del>gone</del>"));
    assert!(render_markdown_to_html("|a|b|\n|-|-|\n|1|2|\n").contains("<table>"));
}

#[test]
fn rendering_is_deterministic() {
    let text = "Some *text* and \\(x\\) and $$y$$";
    assert_eq!(render_markdown_to_html(text), render_markdown_to_html(text));
}

#[test]
fn math_html_from_katex_outcome() {
    assert_eq!(math_html_from(Some("<b>k</b>".to_string()), "x", true), "<b>k</b>");
    assert_eq!(math_html_from(None, "x", true), "<span class=\"math math-display\">x</span>");
}

#[test]
fn renderer_switches_on_its_extensions() {
    let o = markdown_options();
    assert!(o.strikethrough && o.tables && o.math);
}
