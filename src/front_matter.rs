//! Front matter: a leading `---` block of YAML that gives a post's title,
//! date and slug, split from the Markdown body.
use vstd::prelude::*;
use gray_matter::engine::YAML;
use gray_matter::{Matter, Pod};
use crate::models::FrontMatter;

verus! {

/// What gray_matter reads from a file: `None` where the YAML block is
/// malformed; otherwise the block's keys, each with its value where that is a
/// string (no keys where the block is not a mapping; `None` where the file
/// has no block), and the body that follows the block.
pub uninterp spec fn yaml_front_matter(text: Seq<char>) -> Option<
    (Option<Map<Seq<char>, Option<Seq<char>>>>, Seq<char>),
>;

/// The text of an optional string.
pub open spec fn opt_view(o: Option<String>) -> Option<Seq<char>> {
    match o {
        Some(s) => Some(s@),
        None => None,
    }
}

/// The entries as a map from key to value.
pub open spec fn entries_map(e: Seq<(String, Option<String>)>) -> Map<Seq<char>, Option<Seq<char>>>
    decreases e.len(),
{
    if e.len() == 0 {
        Map::empty()
    } else {
        entries_map(e.drop_last()).insert(e.last().0@, opt_view(e.last().1))
    }
}

/// Relies on gray_matter's Matter::<YAML>::parse (with Pod::as_hashmap and
/// Pod::as_string to read the block): splits a leading `---` block from the
/// body and reads the block as YAML.
#[verifier::external_body]
fn read_yaml_front_matter(text: &str) -> (r: Option<(Option<Vec<(String, Option<String>)>>, String)>)
    ensures
        yaml_front_matter(text@) == yaml_read_view(r),
{
    let parsed = Matter::<YAML>::new().parse::<Pod>(text).ok()?;
    let data = parsed.data.map(|pod| pod.as_hashmap().unwrap_or_default().into_iter()
        .map(|(key, value)| (key, value.as_string().ok())).collect());
    Some((data, parsed.content))
}

/// The value of `key`, where the map holds it as a string.
pub open spec fn field_of(m: Map<Seq<char>, Option<Seq<char>>>, key: Seq<char>) -> Option<Seq<char>> {
    if m.contains_key(key) {
        m[key]
    } else {
        None
    }
}

/// The text of each field of the record that stands for front matter that
/// could not be read.
pub open spec fn sentinel_text() -> Seq<char> {
    "Error"@
}

/// What the YAML reading of a file gives as front matter (title, date and
/// slug; `None` where the file has none) and body. Malformed YAML, or a block
/// without a string title, date and slug, gives the record whose fields all
/// read `Error`; malformed YAML gives an empty body.
pub open spec fn document_spec(
    read: Option<(Option<Map<Seq<char>, Option<Seq<char>>>>, Seq<char>)>,
) -> (Option<(Seq<char>, Seq<char>, Seq<char>)>, Seq<char>) {
    let sentinel = (sentinel_text(), sentinel_text(), sentinel_text());
    match read {
        None => (Some(sentinel), Seq::empty()),
        Some((None, body)) => (None, body),
        Some((Some(m), body)) => match (
            field_of(m, "title"@),
            field_of(m, "date"@),
            field_of(m, "slug"@),
        ) {
            (Some(t), Some(d), Some(s)) => (Some((t, d, s)), body),
            _ => (Some(sentinel), body),
        },
    }
}

/// A file split into its front matter and its body.
pub open spec fn front_matter_spec(text: Seq<char>) -> (
    Option<(Seq<char>, Seq<char>, Seq<char>)>,
    Seq<char>,
) {
    document_spec(yaml_front_matter(text))
}

/// The YAML reading as the wrapper hands it over, seen as maps and texts.
pub open spec fn yaml_read_view(read: Option<(Option<Vec<(String, Option<String>)>>, String)>) -> Option<
    (Option<Map<Seq<char>, Option<Seq<char>>>>, Seq<char>),
> {
    match read {
        None => None,
        Some((data, body)) => Some(
            (
                match data {
                    Some(e) => Some(entries_map(e@)),
                    None => None,
                },
                body@,
            ),
        ),
    }
}

/// The fields of an optional record.
pub open spec fn front_matter_view(fm: Option<FrontMatter>) -> Option<(Seq<char>, Seq<char>, Seq<char>)> {
    match fm {
        Some(f) => Some((f.title@, f.date@, f.slug@)),
        None => None,
    }
}

/// A file split into its front matter and its body.
pub struct ParsedDocument {
    pub front_matter: Option<FrontMatter>,
    pub body: String,
}

proof fn lemma_entries_map_absent(e: Seq<(String, Option<String>)>, k: Seq<char>)
    requires
        forall|j: int| 0 <= j < e.len() ==> e[j].0@ != k,
    ensures
        !entries_map(e).contains_key(k),
    decreases e.len(),
{
    if e.len() > 0 {
        lemma_entries_map_absent(e.drop_last(), k);
    }
}

proof fn lemma_entries_map_last(e: Seq<(String, Option<String>)>, j: int)
    requires
        0 <= j < e.len(),
        forall|k: int| j < k < e.len() ==> e[k].0@ != e[j].0@,
    ensures
        entries_map(e).contains_key(e[j].0@),
        entries_map(e)[e[j].0@] == opt_view(e[j].1),
    decreases e.len(),
{
    if j < e.len() - 1 {
        lemma_entries_map_last(e.drop_last(), j);
    }
}

/// The value that the entries give `key`: that of its last entry, where it
/// is a string.
fn lookup(entries: &Vec<(String, Option<String>)>, key: &str) -> (r: Option<String>)
    ensures
        opt_view(r) == field_of(entries_map(entries@), key@),
{
    let k = key.to_owned();
    let mut i: usize = entries.len();
    while i > 0
        invariant
            i <= entries.len(),
            k@ == key@,
            forall|j: int| i <= j < entries.len() ==> entries@[j].0@ != key@,
        decreases i,
    {
        i = i - 1;
        if entries[i].0 == k {
            proof {
                lemma_entries_map_last(entries@, i as int);
            }
            return match &entries[i].1 {
                Some(v) => Some(v.clone()),
                None => None,
            };
        }
    }
    proof {
        lemma_entries_map_absent(entries@, key@);
    }
    None
}

/// The record that stands for front matter that could not be read: title,
/// date and slug all `Error`.
pub fn sentinel_front_matter() -> (r: FrontMatter)
    ensures
        r.all_fields_are(sentinel_text()),
{
    FrontMatter::new("Error", "Error", "Error")
}

/// Splits a post file into its front matter and its Markdown body. A file
/// without a `---` block has no front matter; one whose block cannot be read
/// as a title, a date and a slug gets the record whose fields read `Error`.
pub fn parse_front_matter(text: &str) -> (r: ParsedDocument)
    ensures
        front_matter_view(r.front_matter) == front_matter_spec(text@).0,
        r.body@ == front_matter_spec(text@).1,
{
    document_from_yaml(read_yaml_front_matter(text))
}

/// Turns what the YAML reader gave (`None` for malformed YAML; otherwise the
/// block's keys with their string values, or `None` where there is no block,
/// and the body) into front matter and body.
pub fn document_from_yaml(read: Option<(Option<Vec<(String, Option<String>)>>, String)>) -> (r:
    ParsedDocument)
    ensures
        front_matter_view(r.front_matter) == document_spec(yaml_read_view(read)).0,
        r.body@ == document_spec(yaml_read_view(read)).1,
{
    match read {
        None => ParsedDocument { front_matter: Some(sentinel_front_matter()), body: String::new() },
        Some((None, body)) => ParsedDocument { front_matter: None, body },
        Some((Some(entries), body)) => {
            let title = lookup(&entries, "title");
            let date = lookup(&entries, "date");
            let slug = lookup(&entries, "slug");
            let fm = match (title, date, slug) {
                (Some(t), Some(d), Some(s)) => FrontMatter { title: t, date: d, slug: s },
                _ => sentinel_front_matter(),
            };
            ParsedDocument { front_matter: Some(fm), body }
        },
    }
}

} // verus!
