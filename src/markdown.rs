//! Markdown with LaTeX math: bracket delimiters are first rewritten to the
//! dollar forms, then the text is rendered.
use vstd::prelude::*;
use crate::text::chars_of;
use pulldown_cmark::{html, CowStr, Event, Options, Parser};

verus! {

/// The math delimiter that opens at position `i`: `\(` gives inline math
/// closed by `\)`, `\[` gives display math closed by `\]`. The result holds
/// the closing bracket and whether the span is display math.
pub open spec fn delimiter_spec(s: Seq<char>, i: int) -> Option<(char, bool)> {
    if 0 <= i && i + 1 < s.len() && s[i] == '\\' && s[i + 1] == '(' {
        Some((')', false))
    } else if 0 <= i && i + 1 < s.len() && s[i] == '\\' && s[i + 1] == '[' {
        Some((']', true))
    } else {
        None
    }
}

/// Whether a backslash followed by `close` stands at position `j`.
pub open spec fn closes_at(s: Seq<char>, close: char, j: int) -> bool {
    0 <= j && j + 1 < s.len() && s[j] == '\\' && s[j + 1] == close
}

/// The earliest position at or after `j` where a backslash is followed by `close`.
pub open spec fn find_close(s: Seq<char>, close: char, j: int) -> Option<int>
    decreases s.len() - j,
{
    if j < 0 || j + 1 >= s.len() {
        None
    } else if closes_at(s, close, j) {
        Some(j)
    } else {
        find_close(s, close, j + 1)
    }
}

/// A math span in dollar form: `$$…$$` for display math or for content that
/// spans lines, `$…$` otherwise.
pub open spec fn wrap_math(content: Seq<char>, display: bool) -> Seq<char> {
    if display || content.contains('\n') {
        seq!['$', '$'] + content + seq!['$', '$']
    } else {
        seq!['$'] + content + seq!['$']
    }
}

/// The rewriting of `s` from position `i` on: each bracket-delimited span
/// that has a closing delimiter becomes its dollar form; every other
/// character is copied.
pub open spec fn normalize_from(s: Seq<char>, i: int) -> Seq<char>
    decreases s.len() - i,
    via normalize_from_decreases
{
    if i < 0 || i >= s.len() {
        Seq::empty()
    } else {
        match delimiter_spec(s, i) {
            Some((close, display)) => match find_close(s, close, i + 2) {
                Some(e) => wrap_math(s.subrange(i + 2, e), display) + normalize_from(s, e + 2),
                None => seq![s[i]] + normalize_from(s, i + 1),
            },
            None => seq![s[i]] + normalize_from(s, i + 1),
        }
    }
}

#[via_fn]
proof fn normalize_from_decreases(s: Seq<char>, i: int) {
    if 0 <= i < s.len() {
        if let Some((close, display)) = delimiter_spec(s, i) {
            lemma_find_close(s, close, i + 2);
        }
    }
}

/// The whole text with its bracket math delimiters rewritten.
pub open spec fn normalize_spec(s: Seq<char>) -> Seq<char> {
    normalize_from(s, 0)
}

/// What `find_close` returns is the first closing delimiter from `j` on.
pub proof fn lemma_find_close(s: Seq<char>, close: char, j: int)
    requires
        0 <= j,
    ensures
        match find_close(s, close, j) {
            Some(e) => j <= e && e + 1 < s.len() && closes_at(s, close, e) && forall|k: int|
                j <= k < e ==> !closes_at(s, close, k),
            None => forall|k: int| j <= k ==> !closes_at(s, close, k),
        },
    decreases s.len() - j,
{
    if j < 0 || j + 1 >= s.len() {
    } else if closes_at(s, close, j) {
    } else {
        lemma_find_close(s, close, j + 1);
    }
}

/// The math delimiter that opens at `index` of `input`, if any: the closing
/// bracket and whether the span is display math.
pub fn delimiter_at(input: &Vec<char>, index: usize) -> (r: Option<(char, bool)>)
    ensures
        r == delimiter_spec(input@, index as int),
{
    if index < input.len() && input.len() - index >= 2 && input[index] == '\\' {
        if input[index + 1] == '(' {
            Some((')', false))
        } else if input[index + 1] == '[' {
            Some((']', true))
        } else {
            None
        }
    } else {
        None
    }
}

fn find_close_from(input: &Vec<char>, close: char, from: usize) -> (r: Option<usize>)
    ensures
        match r {
            Some(e) => find_close(input@, close, from as int) == Some(e as int),
            None => find_close(input@, close, from as int) is None,
        },
{
    let mut j: usize = from;
    while j < input.len() && input.len() - j >= 2
        invariant
            from <= j,
            find_close(input@, close, from as int) == find_close(input@, close, j as int),
        decreases input.len() - j,
    {
        if input[j] == '\\' && input[j + 1] == close {
            return Some(j);
        }
        j = j + 1;
    }
    None
}

fn contains_newline(s: &Vec<char>, from: usize, to: usize) -> (r: bool)
    requires
        from <= to <= s.len(),
    ensures
        r == s@.subrange(from as int, to as int).contains('\n'),
{
    let mut k: usize = from;
    while k < to
        invariant
            from <= k <= to <= s.len(),
            forall|m: int| from <= m < k ==> s@[m] != '\n',
        decreases to - k,
    {
        if s[k] == '\n' {
            assert(s@.subrange(from as int, to as int)[k - from] == '\n');
            return true;
        }
        k = k + 1;
    }
    assert forall|m: int| 0 <= m < to - from implies s@.subrange(from as int, to as int)[m] != '\n' by {
        assert(s@[from + m] != '\n');
    }
    false
}

fn push_range(out: &mut String, s: &Vec<char>, from: usize, to: usize)
    requires
        from <= to <= s.len(),
    ensures
        final(out)@ == old(out)@ + s@.subrange(from as int, to as int),
{
    let mut k: usize = from;
    while k < to
        invariant
            from <= k <= to <= s.len(),
            out@ == old(out)@ + s@.subrange(from as int, k as int),
        decreases to - k,
    {
        out.push(s[k]);
        assert(s@.subrange(from as int, k + 1) =~= s@.subrange(from as int, k as int).push(s@[k as int]));
        k = k + 1;
    }
}

/// Rewrites the bracket math delimiters of `input` to the dollar forms that
/// the Markdown math extension reads: `\(…\)` becomes `$…$` (or `$$…$$` when
/// the content spans lines) and `\[…\]` becomes `$$…$$`. An opening delimiter
/// without a closing one is copied as it stands.
pub fn normalize_latex_delimiters(input: &str) -> (r: String)
    ensures
        r@ == normalize_spec(input@),
{
    let s = chars_of(input);
    let mut out = String::new();
    let mut i: usize = 0;
    while i < s.len()
        invariant
            i <= s.len(),
            out@ + normalize_from(s@, i as int) == normalize_spec(s@),
        decreases s.len() - i,
    {
        let old_out = Ghost(out@);
        if let Some((close, display)) = delimiter_at(&s, i) {
            if let Some(e) = find_close_from(&s, close, i + 2) {
                proof {
                    lemma_find_close(s@, close, i + 2);
                }
                let wide = display || contains_newline(&s, i + 2, e);
                out.push('$');
                if wide {
                    out.push('$');
                }
                push_range(&mut out, &s, i + 2, e);
                out.push('$');
                if wide {
                    out.push('$');
                }
                assert(out@ =~= old_out@ + wrap_math(s@.subrange(i + 2, e as int), display));
                assert(old_out@ + normalize_from(s@, i as int) =~= out@ + normalize_from(
                    s@,
                    e + 2,
                ));
                i = e + 2;
                continue;
            }
        }
        out.push(s[i]);
        assert(old_out@ + normalize_from(s@, i as int) =~= out@ + normalize_from(s@, i + 1));
        i = i + 1;
    }
    out
}

/// KaTeX's HTML for `source` in inline or display mode, or `None` where
/// KaTeX cannot render it.
pub uninterp spec fn katex_output(source: Seq<char>, display_mode: bool) -> Option<Seq<char>>;

/// The HTML that pulldown-cmark writes for `markdown` with the strikethrough,
/// table and math extensions switched on or off as given, each math span
/// given as `render_math_html` makes it.
pub uninterp spec fn cmark_math_html(
    markdown: Seq<char>,
    strikethrough: bool,
    tables: bool,
    math: bool,
) -> Seq<char>;

/// The CommonMark extensions that the renderer switches on.
pub struct MarkdownOptions {
    pub strikethrough: bool,
    pub tables: bool,
    pub math: bool,
}

/// Relies on katex::render_with_opts (with katex::Opts built for the mode):
/// KaTeX's HTML for the source, or an error where it cannot render it.
#[verifier::external_body]
fn katex_render(source: &str, display_mode: bool) -> (r: Option<String>)
    ensures
        match r {
            Some(h) => katex_output(source@, display_mode) == Some(h@),
            None => katex_output(source@, display_mode) is None,
        },
{
    let opts = katex::Opts::builder().display_mode(display_mode).build().ok()?;
    katex::render_with_opts(source, opts).ok()
}

/// Relies on pulldown_cmark's Parser::new_ext and html::push_html: the HTML of
/// the Markdown text, with each inline or display math event replaced by the
/// HTML of `render_math_html`.
#[verifier::external_body]
fn cmark_to_html(markdown: &str, options: &MarkdownOptions) -> (r: String)
    ensures
        r@ == cmark_math_html(markdown@, options.strikethrough, options.tables, options.math),
{
    let mut flags = Options::empty();
    flags.set(Options::ENABLE_STRIKETHROUGH, options.strikethrough);
    flags.set(Options::ENABLE_TABLES, options.tables);
    flags.set(Options::ENABLE_MATH, options.math);
    let events = Parser::new_ext(markdown, flags).map(|event| match event {
        Event::InlineMath(m) => Event::Html(CowStr::from(render_math_html(&m, false))),
        Event::DisplayMath(m) => Event::Html(CowStr::from(render_math_html(&m, true))),
        other => other,
    });
    let mut out = String::new();
    html::push_html(&mut out, events);
    out
}

/// The class of the fallback span for inline or display math.
pub open spec fn math_class(display_mode: bool) -> Seq<char> {
    if display_mode {
        "math math-display"@
    } else {
        "math math-inline"@
    }
}

/// The fallback HTML for math that KaTeX could not render: the raw source in
/// a span of class `math math-inline` or `math math-display`.
pub open spec fn fallback_spec(source: Seq<char>, display_mode: bool) -> Seq<char> {
    "<span class=\""@ + math_class(display_mode) + "\">"@ + source + "</span>"@
}

/// The HTML of one math span: KaTeX's rendering where it succeeds, the
/// fallback span otherwise.
pub open spec fn math_html_spec(source: Seq<char>, display_mode: bool) -> Seq<char> {
    match katex_output(source, display_mode) {
        Some(h) => h,
        None => fallback_spec(source, display_mode),
    }
}

/// What the renderer makes of a Markdown text: its delimiters rewritten,
/// then the text rendered.
pub open spec fn rendered_markdown(markdown: Seq<char>) -> Seq<char> {
    cmark_math_html(normalize_spec(markdown), true, true, true)
}

/// The extensions of the renderer: strikethrough, tables and math.
pub fn markdown_options() -> (r: MarkdownOptions)
    ensures
        r.strikethrough && r.tables && r.math,
{
    MarkdownOptions { strikethrough: true, tables: true, math: true }
}

/// Wraps raw math source in a span whose class says inline or display math.
pub fn fallback_math_html(source: &str, display_mode: bool) -> (r: String)
    ensures
        r@ == fallback_spec(source@, display_mode),
{
    let mut out = String::from_str("<span class=\"");
    if display_mode {
        out.append("math math-display");
    } else {
        out.append("math math-inline");
    }
    out.append("\">");
    out.append(source);
    out.append("</span>");
    out
}

/// Renders one math span with KaTeX, falling back to the raw source in a
/// span where KaTeX fails.
pub fn render_math_html(source: &str, display_mode: bool) -> (r: String)
    ensures
        r@ == math_html_spec(source@, display_mode),
{
    math_html_from(katex_render(source, display_mode), source, display_mode)
}

/// The HTML of one math span given KaTeX's outcome for it: KaTeX's HTML
/// where it rendered the source, the fallback span where it did not.
pub fn math_html_from(katex_html: Option<String>, source: &str, display_mode: bool) -> (r: String)
    ensures
        r@ == match katex_html {
            Some(h) => h@,
            None => fallback_spec(source@, display_mode),
        },
{
    match katex_html {
        Some(h) => h,
        None => fallback_math_html(source, display_mode),
    }
}

/// Renders Markdown with math to HTML. Bracket math delimiters are first
/// rewritten to the dollar forms; math spans are rendered with KaTeX.
pub fn render_markdown_to_html(markdown: &str) -> (r: String)
    ensures
        r@ == rendered_markdown(markdown@),
{
    let normalized = normalize_latex_delimiters(markdown);
    cmark_to_html(normalized.as_str(), &markdown_options())
}

/// Whether a bracket math span that has a closing delimiter opens at `i`.
pub open spec fn span_at(s: Seq<char>, i: int) -> bool {
    match delimiter_spec(s, i) {
        Some((close, display)) => find_close(s, close, i + 2) is Some,
        None => false,
    }
}

/// A text in which no bracket span opens with a closing delimiter after it is
/// left as it stands from `i` on; in particular an opening delimiter without a
/// closing one passes through literally.
pub proof fn lemma_normalize_from_unchanged(s: Seq<char>, i: int)
    requires
        0 <= i <= s.len(),
        forall|k: int| i <= k < s.len() ==> !#[trigger] span_at(s, k),
    ensures
        normalize_from(s, i) == s.subrange(i, s.len() as int),
    decreases s.len() - i,
{
    if i < s.len() {
        assert(!span_at(s, i));
        lemma_normalize_from_unchanged(s, i + 1);
        assert(seq![s[i]] + s.subrange(i + 1, s.len() as int) =~= s.subrange(i, s.len() as int));
    } else {
        assert(s.subrange(i, s.len() as int) =~= Seq::<char>::empty());
    }
}

/// A text without any closable bracket span is its own rewriting.
pub proof fn lemma_normalize_unchanged(s: Seq<char>)
    requires
        forall|k: int| 0 <= k < s.len() ==> !#[trigger] span_at(s, k),
    ensures
        normalize_spec(s) == s,
{
    lemma_normalize_from_unchanged(s, 0);
    assert(s.subrange(0, s.len() as int) =~= s);
}

/// Rewriting is idempotent once every bracket span has been rewritten: when
/// the rewritten text holds no closable bracket span, rewriting it again
/// changes nothing.
pub proof fn lemma_normalize_idempotent(x: Seq<char>)
    requires
        forall|k: int| 0 <= k < normalize_spec(x).len() ==> !#[trigger] span_at(normalize_spec(x), k),
    ensures
        normalize_spec(normalize_spec(x)) == normalize_spec(x),
{
    lemma_normalize_unchanged(normalize_spec(x));
}

/// Rendering is deterministic: equal texts render to equal HTML.
pub proof fn lemma_render_deterministic(a: Seq<char>, b: Seq<char>)
    requires
        a == b,
    ensures
        rendered_markdown(a) == rendered_markdown(b),
{
}

} // verus!
