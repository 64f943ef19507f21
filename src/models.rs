//! The records that describe posts.
use vstd::prelude::*;

verus! {

/// The metadata at the head of a post file.
pub struct FrontMatter {
    pub title: String,
    pub date: String,
    pub slug: String,
}

/// An entry of the post index.
pub struct Post {
    pub title: String,
    pub slug: String,
}

impl FrontMatter {
    /// Every field's text equals the given one.
    pub open spec fn all_fields_are(&self, v: Seq<char>) -> bool {
        self.title@ == v && self.date@ == v && self.slug@ == v
    }
}

impl Post {
    /// An index entry with the given title and slug.
    pub fn new(title: &str, slug: &str) -> (r: Post)
        ensures
            r.title@ == title@,
            r.slug@ == slug@,
    {
        Post { title: title.to_owned(), slug: slug.to_owned() }
    }
}

impl Clone for Post {
    fn clone(&self) -> (r: Post)
        ensures
            r.title@ == self.title@,
            r.slug@ == self.slug@,
    {
        Post { title: self.title.clone(), slug: self.slug.clone() }
    }
}

impl FrontMatter {
    /// A record with the given fields.
    pub fn new(title: &str, date: &str, slug: &str) -> (r: FrontMatter)
        ensures
            r.title@ == title@,
            r.date@ == date@,
            r.slug@ == slug@,
    {
        FrontMatter { title: title.to_owned(), date: date.to_owned(), slug: slug.to_owned() }
    }
}

} // verus!
