//! The content snapshot, the state that request handlers read, and the pages
//! rendered from it.
use vstd::prelude::*;
use crate::front_matter::{front_matter_spec, front_matter_view, parse_front_matter};
use crate::markdown::{render_markdown_to_html, rendered_markdown};
use crate::models::{FrontMatter, Post};
use crate::template::{page_spec, render_with_layout, replace_placeholder, replace_spec};

verus! {

/// A coherent set of the site's fragments and its post index, all from one
/// scan of the content directory.
pub struct ContentSnapshot {
    pub banner_html: String,
    pub layout_html: String,
    pub home_html: String,
    pub not_found_html: String,
    pub posts: Vec<Post>,
}

/// The home page's source: an HTML fragment, or Markdown with optional front
/// matter.
pub enum HomeSource {
    Html(String),
    Markdown(String),
}

/// The shared state: the current snapshot and whether the server runs in
/// development mode.
pub struct AppState {
    pub snapshot: ContentSnapshot,
    pub is_development: bool,
}

/// The home fragment: HTML as it stands, Markdown with its front matter
/// dropped and its body rendered.
pub open spec fn home_spec(home: HomeSource) -> Seq<char> {
    match home {
        HomeSource::Html(h) => h@,
        HomeSource::Markdown(m) => rendered_markdown(front_matter_spec(m@).1),
    }
}

/// The title and slug under which a post file stands in the index: those of
/// its front matter, or `Error` and `error` where it has none.
pub open spec fn post_entry_spec(text: Seq<char>) -> (Seq<char>, Seq<char>) {
    match front_matter_spec(text).0 {
        Some((t, d, s)) => (t, s),
        None => ("Error"@, "error"@),
    }
}

/// Whether the index entries are those of the post files, in order.
pub open spec fn index_of_files(posts: Seq<Post>, files: Seq<String>) -> bool {
    &&& posts.len() == files.len()
    &&& forall|i: int|
        0 <= i < files.len() ==> (posts[i].title@, posts[i].slug@) == #[trigger] post_entry_spec(
            files[i]@,
        )
}

/// The content of a post page: the title as a heading, the date, then the
/// rendered body; a file without front matter gets an error heading.
pub open spec fn post_body_spec(text: Seq<char>) -> Seq<char> {
    compose_spec(front_matter_spec(text).0, rendered_markdown(front_matter_spec(text).1))
}

/// A post's content from its front matter fields and its rendered body.
pub open spec fn compose_spec(fm: Option<(Seq<char>, Seq<char>, Seq<char>)>, html: Seq<char>) -> Seq<
    char,
> {
    match fm {
        Some((t, d, s)) => "<h1>"@ + t + "</h1><p style=\"font-size: smaller; color: #888;\">"@ + d
            + "</p>"@ + html,
        None => "<h1>Error: No Front Matter</h1>"@ + html,
    }
}

/// Renders the home fragment.
pub fn render_home(home: &HomeSource) -> (r: String)
    ensures
        r@ == home_spec(*home),
{
    match home {
        HomeSource::Html(h) => h.clone(),
        HomeSource::Markdown(m) => {
            let doc = parse_front_matter(m.as_str());
            render_markdown_to_html(doc.body.as_str())
        },
    }
}

/// The index entry of one post file.
pub fn post_entry(text: &str) -> (r: Post)
    ensures
        (r.title@, r.slug@) == post_entry_spec(text@),
{
    let doc = parse_front_matter(text);
    match doc.front_matter {
        Some(fm) => Post { title: fm.title, slug: fm.slug },
        None => Post::new("Error", "error"),
    }
}

/// The content of a post page, from the text of its file.
pub fn render_post_body(text: &str) -> (r: String)
    ensures
        r@ == post_body_spec(text@),
{
    let doc = parse_front_matter(text);
    let html = render_markdown_to_html(doc.body.as_str());
    compose_post_body(&doc.front_matter, html.as_str())
}

/// The content of a post page from its front matter and its rendered body:
/// a heading with the title and a line with the date before the body, or an
/// error heading where the post has no front matter.
pub fn compose_post_body(front_matter: &Option<FrontMatter>, html: &str) -> (r: String)
    ensures
        r@ == compose_spec(front_matter_view(*front_matter), html@),
{
    match front_matter {
        Some(fm) => {
            let mut out = String::from_str("<h1>");
            out.append(fm.title.as_str());
            out.append("</h1><p style=\"font-size: smaller; color: #888;\">");
            out.append(fm.date.as_str());
            out.append("</p>");
            out.append(html);
            out
        },
        None => {
            let mut out = String::from_str("<h1>Error: No Front Matter</h1>");
            out.append(html);
            out
        },
    }
}

/// Assembles a snapshot from the fragments read from disk and the texts of
/// the post files, in the order the directory gave them.
pub fn build_snapshot(
    banner_html: String,
    layout_html: String,
    home: &HomeSource,
    not_found_html: String,
    post_files: &Vec<String>,
) -> (r: ContentSnapshot)
    ensures
        r.banner_html == banner_html,
        r.layout_html == layout_html,
        r.home_html@ == home_spec(*home),
        r.not_found_html == not_found_html,
        index_of_files(r.posts@, post_files@),
{
    let home_html = render_home(home);
    let mut posts: Vec<Post> = Vec::new();
    let mut i: usize = 0;
    while i < post_files.len()
        invariant
            i <= post_files.len(),
            index_of_files(posts@, post_files@.subrange(0, i as int)),
        decreases post_files.len() - i,
    {
        let p = post_entry(post_files[i].as_str());
        posts.push(p);
        i = i + 1;
        assert(post_files@.subrange(0, i as int).drop_last() =~= post_files@.subrange(
            0,
            i - 1,
        ));
    }
    assert(post_files@.subrange(0, post_files.len() as int) =~= post_files@);
    ContentSnapshot { banner_html, layout_html, home_html, not_found_html, posts }
}

impl AppState {
    /// The home page: the layout filled with the banner, the home fragment
    /// and the post list.
    pub fn homepage(&self) -> (r: String)
        ensures
            r@ == page_spec(
                self.snapshot.layout_html@,
                self.snapshot.banner_html@,
                self.snapshot.home_html@,
                self.snapshot.posts@,
                self.is_development,
            ),
    {
        let s = &self.snapshot;
        render_with_layout(
            s.layout_html.as_str(),
            s.banner_html.as_str(),
            s.home_html.as_str(),
            &s.posts,
            self.is_development,
        )
    }

    /// The page of the post `slug`, given the text of its file, or `None`
    /// where the file could not be read: then the not-found fragment, with
    /// `{{slug}}` replaced by the slug as it stands, takes the content's place.
    pub fn post_page(&self, slug: &str, file_text: Option<&str>) -> (r: String)
        ensures
            r@ == page_spec(
                self.snapshot.layout_html@,
                self.snapshot.banner_html@,
                match file_text {
                    Some(t) => post_body_spec(t@),
                    None => replace_spec(self.snapshot.not_found_html@, "{{slug}}"@, slug@),
                },
                self.snapshot.posts@,
                self.is_development,
            ),
    {
        let body = match file_text {
            Some(t) => render_post_body(t),
            None => replace_placeholder(self.snapshot.not_found_html.as_str(), "{{slug}}", slug),
        };
        let s = &self.snapshot;
        render_with_layout(
            s.layout_html.as_str(),
            s.banner_html.as_str(),
            body.as_str(),
            &s.posts,
            self.is_development,
        )
    }

    /// Installs the outcome of a reload: a snapshot that loaded in full
    /// replaces the current one as a whole; a failed load leaves the current
    /// one untouched. No field is ever taken from one snapshot and another
    /// from the other.
    pub fn install(&mut self, loaded: Option<ContentSnapshot>)
        ensures
            final(self).is_development == old(self).is_development,
            match loaded {
                Some(s) => final(self).snapshot == s,
                None => final(self).snapshot == old(self).snapshot,
            },
    {
        if let Some(s) = loaded {
            self.snapshot = s;
        }
    }
}

} // verus!
