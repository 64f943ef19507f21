//! Literal template substitution and the page layout.
use vstd::prelude::*;
use crate::models::Post;
use crate::text::chars_of;

verus! {

/// The script that a page served in development mode carries: it reloads the
/// page when the server sends `reload` on the `/ws` socket.
pub const HOT_RELOAD_SCRIPT: &'static str = "\n<script>\n    const socket = new WebSocket(\"ws://\" + window.location.host + \"/ws\");\n    socket.onmessage = (event) => {\n        if (event.data === \"reload\") {\n            window.location.reload();\n        }\n    };\n</script>\n";

/// Whether `pat` stands in `s` at position `i`.
pub open spec fn matches_at(s: Seq<char>, pat: Seq<char>, i: int) -> bool {
    0 <= i && i + pat.len() <= s.len() && s.subrange(i, i + pat.len()) == pat
}

/// Whether `pat` stands anywhere in `s`.
pub open spec fn occurs_in(s: Seq<char>, pat: Seq<char>) -> bool {
    exists|i: int| #[trigger] matches_at(s, pat, i)
}

/// `s` from position `i` on, with each occurrence of a non-empty `pat`,
/// taken left to right without overlap, replaced by `rep`.
pub open spec fn replace_from(s: Seq<char>, pat: Seq<char>, rep: Seq<char>, i: int) -> Seq<char>
    decreases s.len() - i,
{
    if i < 0 || i >= s.len() {
        Seq::empty()
    } else if pat.len() > 0 && matches_at(s, pat, i) {
        rep + replace_from(s, pat, rep, i + pat.len())
    } else {
        seq![s[i]] + replace_from(s, pat, rep, i + 1)
    }
}

/// `s` with every occurrence of `pat` replaced by `rep`; an empty `pat`
/// leaves `s` as it is.
pub open spec fn replace_spec(s: Seq<char>, pat: Seq<char>, rep: Seq<char>) -> Seq<char> {
    replace_from(s, pat, rep, 0)
}

fn matches_at_exec(s: &Vec<char>, pat: &Vec<char>, i: usize) -> (r: bool)
    requires
        i < s.len(),
    ensures
        r == matches_at(s@, pat@, i as int),
{
    if s.len() - i < pat.len() {
        return false;
    }
    let mut k: usize = 0;
    while k < pat.len()
        invariant
            i + pat.len() <= s.len(),
            k <= pat.len(),
            forall|m: int| 0 <= m < k ==> s@[i + m] == pat@[m],
        decreases pat.len() - k,
    {
        if s[i + k] != pat[k] {
            assert(s@.subrange(i as int, i + pat.len())[k as int] != pat@[k as int]);
            return false;
        }
        k = k + 1;
    }
    assert(s@.subrange(i as int, i + pat.len()) =~= pat@);
    true
}

/// Replaces every occurrence of `placeholder` in `text` by `value`, left to
/// right, without escaping. An empty placeholder leaves the text unchanged.
pub fn replace_placeholder(text: &str, placeholder: &str, value: &str) -> (r: String)
    ensures
        r@ == replace_spec(text@, placeholder@, value@),
{
    let s = chars_of(text);
    let pat = chars_of(placeholder);
    let mut out = String::new();
    let mut i: usize = 0;
    while i < s.len()
        invariant
            i <= s.len(),
            s@ == text@,
            pat@ == placeholder@,
            out@ + replace_from(s@, pat@, value@, i as int) == replace_spec(s@, pat@, value@),
        decreases s.len() - i,
    {
        let old_out = Ghost(out@);
        if pat.len() > 0 && matches_at_exec(&s, &pat, i) {
            out.append(value);
            assert(old_out@ + replace_from(s@, pat@, value@, i as int) =~= out@ + replace_from(
                s@,
                pat@,
                value@,
                i + pat.len(),
            ));
            i = i + pat.len();
        } else {
            out.push(s[i]);
            assert(old_out@ + replace_from(s@, pat@, value@, i as int) =~= out@ + replace_from(
                s@,
                pat@,
                value@,
                i + 1,
            ));
            i = i + 1;
        }
    }
    out
}

/// Where `pat` does not stand from `i` on, nothing is replaced there.
pub proof fn lemma_replace_from_unchanged(s: Seq<char>, pat: Seq<char>, rep: Seq<char>, i: int)
    requires
        0 <= i <= s.len(),
        forall|k: int| i <= k ==> !#[trigger] matches_at(s, pat, k),
    ensures
        replace_from(s, pat, rep, i) == s.subrange(i, s.len() as int),
    decreases s.len() - i,
{
    if i < s.len() {
        assert(!matches_at(s, pat, i));
        lemma_replace_from_unchanged(s, pat, rep, i + 1);
        assert(seq![s[i]] + s.subrange(i + 1, s.len() as int) =~= s.subrange(i, s.len() as int));
    } else {
        assert(s.subrange(i, s.len() as int) =~= Seq::<char>::empty());
    }
}

/// Substitution is idempotent for a placeholder that the replacement text
/// does not hold, as long as the substituted text holds no new occurrence of
/// it (one formed where the replacement meets its neighbours): substituting
/// again changes nothing.
pub proof fn lemma_replace_idempotent(s: Seq<char>, pat: Seq<char>, rep: Seq<char>)
    requires
        !occurs_in(rep, pat),
        !occurs_in(replace_spec(s, pat, rep), pat),
    ensures
        replace_spec(replace_spec(s, pat, rep), pat, rep) == replace_spec(s, pat, rep),
{
    let t = replace_spec(s, pat, rep);
    assert forall|k: int| 0 <= k implies !#[trigger] matches_at(t, pat, k) by {
        if matches_at(t, pat, k) {
            assert(occurs_in(t, pat));
        }
    }
    lemma_replace_from_unchanged(t, pat, rep, 0);
    assert(t.subrange(0, t.len() as int) =~= t);
}

/// One entry of the post list.
pub open spec fn post_item(title: Seq<char>, slug: Seq<char>) -> Seq<char> {
    "<li><a href=\"/posts/"@ + slug + "\" class=\"text-blue no-underline\">"@ + title
        + "</a></li>"@
}

/// The entries of the first `n` posts, in order.
pub open spec fn post_list(posts: Seq<Post>, n: int) -> Seq<char>
    decreases n,
{
    if n <= 0 {
        Seq::empty()
    } else {
        post_list(posts, n - 1) + post_item(posts[n - 1].title@, posts[n - 1].slug@)
    }
}

/// The page: the layout with the banner, the content and the post list
/// substituted, and in development mode the reload script put before
/// `</body>`.
pub open spec fn page_spec(
    layout: Seq<char>,
    banner: Seq<char>,
    content: Seq<char>,
    posts: Seq<Post>,
    is_development: bool,
) -> Seq<char> {
    let page = replace_spec(
        replace_spec(replace_spec(layout, "{{ banner }}"@, banner), "{{ content }}"@, content),
        "{{ posts }}"@,
        post_list(posts, posts.len() as int),
    );
    if is_development {
        replace_spec(page, "</body>"@, HOT_RELOAD_SCRIPT@ + "</body>"@)
    } else {
        page
    }
}

/// The HTML list entries of the posts, in order.
pub fn render_post_list(posts: &Vec<Post>) -> (r: String)
    ensures
        r@ == post_list(posts@, posts@.len() as int),
{
    let mut out = String::new();
    let mut i: usize = 0;
    while i < posts.len()
        invariant
            i <= posts.len(),
            out@ == post_list(posts@, i as int),
        decreases posts.len() - i,
    {
        let p = &posts[i];
        out.append("<li><a href=\"/posts/");
        out.append(p.slug.as_str());
        out.append("\" class=\"text-blue no-underline\">");
        out.append(p.title.as_str());
        out.append("</a></li>");
        i = i + 1;
    }
    out
}

/// Renders a page: the layout's `{{ banner }}`, `{{ content }}` and
/// `{{ posts }}` are replaced by the banner, the content and the post list;
/// in development mode the reload script is put before each `</body>`.
pub fn render_with_layout(
    layout: &str,
    banner: &str,
    content: &str,
    posts: &Vec<Post>,
    is_development: bool,
) -> (r: String)
    ensures
        r@ == page_spec(layout@, banner@, content@, posts@, is_development),
{
    let list_items = render_post_list(posts);
    let with_banner = replace_placeholder(layout, "{{ banner }}", banner);
    let with_content = replace_placeholder(with_banner.as_str(), "{{ content }}", content);
    let page = replace_placeholder(with_content.as_str(), "{{ posts }}", list_items.as_str());
    if is_development {
        let mut script = String::from_str(HOT_RELOAD_SCRIPT);
        script.append("</body>");
        replace_placeholder(page.as_str(), "</body>", script.as_str())
    } else {
        page
    }
}

} // verus!
